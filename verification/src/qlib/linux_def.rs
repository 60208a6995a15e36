//! Signal numbers, signal sets, signal actions and event masks.

use vstd::prelude::*;

verus! {

/// Readiness events, one bit each.
pub type EventMask = u64;

pub const EVENT_IN: EventMask = 0x01;
pub const EVENT_PRI: EventMask = 0x02;
pub const EVENT_OUT: EventMask = 0x04;
pub const EVENT_ERR: EventMask = 0x08;
pub const EVENT_HUP: EventMask = 0x10;

/// A signal number. Numbers 1 to 31 are the standard signals, 32 to 64 the
/// real-time ones; 0 is the null signal.
#[derive(Clone, Copy, Debug, PartialEq, Eq, Structural)]
pub struct Signal(pub i32);

impl Signal {
    pub const SIGHUP: i32 = 1;
    pub const SIGINT: i32 = 2;
    pub const SIGQUIT: i32 = 3;
    pub const SIGILL: i32 = 4;
    pub const SIGTRAP: i32 = 5;
    pub const SIGABRT: i32 = 6;
    pub const SIGBUS: i32 = 7;
    pub const SIGFPE: i32 = 8;
    pub const SIGKILL: i32 = 9;
    pub const SIGUSR1: i32 = 10;
    pub const SIGSEGV: i32 = 11;
    pub const SIGUSR2: i32 = 12;
    pub const SIGPIPE: i32 = 13;
    pub const SIGALRM: i32 = 14;
    pub const SIGTERM: i32 = 15;
    pub const SIGSTKFLT: i32 = 16;
    pub const SIGCHLD: i32 = 17;
    pub const SIGCONT: i32 = 18;
    pub const SIGSTOP: i32 = 19;
    pub const SIGTSTP: i32 = 20;
    pub const SIGTTIN: i32 = 21;
    pub const SIGTTOU: i32 = 22;
    pub const SIGURG: i32 = 23;
    pub const SIGXCPU: i32 = 24;
    pub const SIGXFSZ: i32 = 25;
    pub const SIGVTALRM: i32 = 26;
    pub const SIGPROF: i32 = 27;
    pub const SIGWINCH: i32 = 28;
    pub const SIGIO: i32 = 29;
    pub const SIGPWR: i32 = 30;
    pub const SIGSYS: i32 = 31;

    pub const FIRST_RT_SIGNAL: i32 = 32;
    pub const SIGNAL_MAX: i32 = 64;

    /// A signal that can be sent: 1 to 64.
    pub open spec fn valid(self) -> bool {
        0 < self.0 <= 64
    }

    pub fn IsValid(&self) -> (r: bool)
        ensures
            r == self.valid(),
    {
        0 < self.0 && self.0 <= Self::SIGNAL_MAX
    }

    /// Real-time signals queue more than one instance.
    pub fn IsRealtime(&self) -> (r: bool)
        ensures
            r == (self.0 >= 32),
    {
        self.0 >= Self::FIRST_RT_SIGNAL
    }

    /// Whether a mask may block the signal: all but `SIGKILL` and `SIGSTOP`.
    pub fn Maskable(&self) -> (r: bool)
        ensures
            r == (self.0 != Signal::SIGKILL && self.0 != Signal::SIGSTOP),
    {
        self.0 != Self::SIGKILL && self.0 != Self::SIGSTOP
    }

    /// Position of the signal's bit in a `SignalSet`.
    pub fn Index(&self) -> (r: u64)
        requires
            self.valid(),
        ensures
            r == self.0 - 1,
    {
        (self.0 - 1) as u64
    }
}

/// The bit that stands for position `i` in a 64-bit set.
pub open spec fn Bit(i: u64) -> u64 {
    1u64 << i
}

/// A set of signals: bit `n - 1` stands for signal `n`.
#[derive(Clone, Copy, Debug, PartialEq, Eq, Structural)]
pub struct SignalSet(pub u64);

/// Bits of `SIGKILL` and `SIGSTOP`, which no mask may hold.
pub const UNMASKABLE_MASK: u64 = 0x40100;

/// Bits of the signals that stop a thread group by default:
/// `SIGSTOP`, `SIGTSTP`, `SIGTTIN`, `SIGTTOU`.
pub const STOP_MASK: u64 = 0x3c0000;

impl SignalSet {
    /// Membership of signal number `sig`; false outside 1 to 64.
    pub open spec fn has(self, sig: int) -> bool {
        1 <= sig <= 64 && self.0 & Bit((sig - 1) as u64) != 0
    }

    /// The set that holds `sig` alone.
    pub fn New(sig: Signal) -> (r: SignalSet)
        requires
            sig.valid(),
        ensures
            r.0 == Bit((sig.0 - 1) as u64),
            r.0 != 0,
            forall|s: int| r.has(s) <==> s == sig.0,
    {
        let i: u64 = sig.Index();
        let r = SignalSet(1u64 << i);
        proof {
            lemma_bit_nonzero(i);
            assert forall|s: int| r.has(s) <==> s == sig.0 by {
                if 1 <= s <= 64 {
                    lemma_bit_distinct(i, (s - 1) as u64);
                }
            }
        }
        r
    }

    /// The set of all signals in `sigs`.
    pub fn MakeSignalSet(sigs: &[Signal]) -> (r: SignalSet)
        requires
            forall|k: int| 0 <= k < sigs@.len() ==> (#[trigger] sigs@[k]).valid(),
        ensures
            forall|s: int| r.has(s) <==> (exists|k: int| 0 <= k < sigs@.len() && (#[trigger] sigs@[k]).0 == s),
    {
        let mut acc: u64 = 0;
        let mut k: usize = 0;
        proof {
            assert forall|s: int| !SignalSet(0).has(s) by {
                if 1 <= s <= 64 {
                    lemma_has_zero((s - 1) as u64);
                }
            }
        }
        while k < sigs.len()
            invariant
                k <= sigs@.len(),
                forall|j: int| 0 <= j < sigs@.len() ==> (#[trigger] sigs@[j]).valid(),
                forall|s: int| SignalSet(acc).has(s) <==> (exists|j: int| 0 <= j < k && (#[trigger] sigs@[j]).0 == s),
            decreases sigs@.len() - k,
        {
            let sig = sigs[k];
            let i: u64 = sig.Index();
            let next: u64 = acc | (1u64 << i);
            proof {
                assert forall|s: int| SignalSet(next).has(s) <==> (exists|j: int| 0 <= j < k + 1 && (#[trigger] sigs@[j]).0 == s) by {
                    if 1 <= s <= 64 {
                        lemma_has_or_bit(acc, i, (s - 1) as u64);
                    }
                    if SignalSet(next).has(s) {
                        if s == sig.0 {
                            assert(sigs@[k as int].0 == s);
                        } else {
                            assert(SignalSet(acc).has(s));
                            let j = choose|j: int| 0 <= j < k && (#[trigger] sigs@[j]).0 == s;
                            assert(0 <= j < k + 1 && sigs@[j].0 == s);
                        }
                    }
                    if exists|j: int| 0 <= j < k + 1 && (#[trigger] sigs@[j]).0 == s {
                        let j = choose|j: int| 0 <= j < k + 1 && (#[trigger] sigs@[j]).0 == s;
                        if j < k {
                            assert(SignalSet(acc).has(s));
                        }
                    }
                }
            }
            acc = next;
            k = k + 1;
        }
        SignalSet(acc)
    }
}

/// `Bit(i)` is never the empty set.
pub proof fn lemma_bit_nonzero(i: u64)
    requires
        i < 64,
    ensures
        Bit(i) != 0,
{
    assert((1u64 << i) != 0) by (bit_vector)
        requires
            i < 64,
    ;
}

/// Two positions share a bit only when they are equal.
pub proof fn lemma_bit_distinct(i: u64, j: u64)
    requires
        i < 64,
        j < 64,
    ensures
        (Bit(i) & Bit(j) != 0) <==> i == j,
{
    assert(((1u64 << i) & (1u64 << j) != 0) <==> i == j) by (bit_vector)
        requires
            i < 64,
            j < 64,
    ;
}

/// The empty set holds no position.
pub proof fn lemma_has_zero(j: u64)
    ensures
        0u64 & Bit(j) == 0,
{
    assert(0u64 & (1u64 << j) == 0) by (bit_vector);
}

/// Adding position `i` to a set adds `i` and nothing else.
pub proof fn lemma_has_or_bit(a: u64, i: u64, j: u64)
    requires
        i < 64,
        j < 64,
    ensures
        ((a | Bit(i)) & Bit(j) != 0) <==> (a & Bit(j) != 0 || i == j),
{
    assert((((a | (1u64 << i)) & (1u64 << j)) != 0) <==> ((a & (1u64 << j)) != 0 || i == j)) by (bit_vector)
        requires
            i < 64,
            j < 64,
    ;
}

/// Removing position `i` from a set removes `i` and nothing else.
pub proof fn lemma_has_clear_bit(a: u64, i: u64, j: u64)
    requires
        i < 64,
        j < 64,
    ensures
        ((a & !Bit(i)) & Bit(j) != 0) <==> (a & Bit(j) != 0 && i != j),
{
    assert((((a & !(1u64 << i)) & (1u64 << j)) != 0) <==> ((a & (1u64 << j)) != 0 && i != j)) by (bit_vector)
        requires
            i < 64,
            j < 64,
    ;
}

/// Membership in an intersection, a union and a difference of two sets.
pub proof fn lemma_has_ops(a: u64, b: u64, j: u64)
    requires
        j < 64,
    ensures
        ((a & b) & Bit(j) != 0) <==> (a & Bit(j) != 0 && b & Bit(j) != 0),
        ((a | b) & Bit(j) != 0) <==> (a & Bit(j) != 0 || b & Bit(j) != 0),
        ((a & !b) & Bit(j) != 0) <==> (a & Bit(j) != 0 && b & Bit(j) == 0),
        ((!a) & Bit(j) != 0) <==> (a & Bit(j) == 0),
{
    assert((((a & b) & (1u64 << j)) != 0) <==> ((a & (1u64 << j)) != 0 && (b & (1u64 << j)) != 0)) by (bit_vector);
    assert((((a | b) & (1u64 << j)) != 0) <==> ((a & (1u64 << j)) != 0 || (b & (1u64 << j)) != 0)) by (bit_vector);
    assert((((a & !b) & (1u64 << j)) != 0) <==> ((a & (1u64 << j)) != 0 && (b & (1u64 << j)) == 0)) by (bit_vector);
    assert((((!a) & (1u64 << j)) != 0) <==> ((a & (1u64 << j)) == 0)) by (bit_vector)
        requires
            j < 64,
    ;
}

/// A set is empty exactly when it holds no position.
pub proof fn lemma_zero_iff_no_bits(a: u64)
    ensures
        a == 0 <==> (forall|j: u64| j < 64 ==> a & #[trigger] Bit(j) == 0),
{
    if a != 0 {
        let j = choose_set_bit(a);
        assert(a & Bit(j) != 0);
    } else {
        assert forall|j: u64| j < 64 implies a & #[trigger] Bit(j) == 0 by {
            lemma_has_zero(j);
        }
    }
}

/// The lowest position at or above `from` that `a` holds; 64 if none.
pub open spec fn LowestBitFrom(a: u64, from: u64) -> u64
    decreases 64 - from,
{
    if from >= 64 {
        64
    } else if a & Bit(from) != 0 {
        from
    } else {
        LowestBitFrom(a, (from + 1) as u64)
    }
}

/// `LowestBitFrom` finds a held position and skips only positions not held.
pub proof fn lemma_lowest_bit_from(a: u64, from: u64)
    requires
        from <= 64,
    ensures
        from <= LowestBitFrom(a, from) <= 64,
        LowestBitFrom(a, from) < 64 ==> a & Bit(LowestBitFrom(a, from)) != 0,
        forall|j: u64| from <= j < LowestBitFrom(a, from) ==> a & #[trigger] Bit(j) == 0,
    decreases 64 - from,
{
    if from < 64 && a & Bit(from) == 0 {
        lemma_lowest_bit_from(a, (from + 1) as u64);
    }
}

/// Some position of a non-empty set.
pub proof fn choose_set_bit(a: u64) -> (j: u64)
    requires
        a != 0,
    ensures
        j < 64,
        a & Bit(j) != 0,
{
    lemma_lowest_bit_from(a, 0);
    let j = LowestBitFrom(a, 0);
    if j >= 64 {
        assert forall|k: u64| k < 64 implies a & #[trigger] Bit(k) == 0 by {}
        lemma_all_clear_is_zero(a);
    }
    j
}

/// A set none of whose 64 positions is held is empty.
pub proof fn lemma_all_clear_is_zero(a: u64)
    requires
        forall|k: u64| k < 64 ==> a & #[trigger] Bit(k) == 0,
    ensures
        a == 0,
{
    lemma_low_clear(a, 64);
    assert(a & 0xffff_ffff_ffff_ffffu64 == a) by (bit_vector);
}

/// The mask of the positions below `n`.
pub open spec fn LowMask(n: u64) -> u64
    decreases n,
{
    if n == 0 {
        0
    } else {
        LowMask((n - 1) as u64) | Bit((n - 1) as u64)
    }
}

proof fn lemma_low_clear(a: u64, n: u64)
    requires
        n <= 64,
        forall|k: u64| k < n ==> a & #[trigger] Bit(k) == 0,
    ensures
        a & LowMask(n) == 0,
        n == 64 ==> LowMask(n) == 0xffff_ffff_ffff_ffffu64,
    decreases n,
{
    if n == 0 {
        assert(a & 0u64 == 0) by (bit_vector);
    } else {
        let m = (n - 1) as u64;
        lemma_low_clear(a, m);
        let lo = LowMask(m);
        let b = Bit(m);
        assert(a & b == 0);
        assert(a & (lo | b) == 0) by (bit_vector)
            requires
                a & lo == 0,
                a & b == 0,
        ;
        if n == 64 {
            lemma_low_mask_value(64);
        }
    }
}

proof fn lemma_low_mask_value(n: u64)
    requires
        n <= 64,
    ensures
        n < 64 ==> LowMask(n) == ((1u64 << n) - 1) as u64,
        n == 64 ==> LowMask(n) == 0xffff_ffff_ffff_ffffu64,
    decreases n,
{
    if n == 0 {
        assert((1u64 << 0u64) - 1 == 0) by (bit_vector);
    } else {
        let m = (n - 1) as u64;
        lemma_low_mask_value(m);
        let lo = LowMask(m);
        if n < 64 {
            assert((lo | (1u64 << m)) == ((1u64 << n) - 1) as u64) by (bit_vector)
                requires
                    m < 63,
                    n == m + 1,
                    lo == ((1u64 << m) - 1) as u64,
            ;
        } else {
            assert((lo | (1u64 << m)) == 0xffff_ffff_ffff_ffffu64) by (bit_vector)
                requires
                    m == 63,
                    lo == ((1u64 << m) - 1) as u64,
            ;
        }
    }
}


/// Flags of a signal action (`sa_flags`).
#[derive(Clone, Copy, Debug, PartialEq, Eq, Structural)]
pub struct SigFlag(pub u64);

impl SigFlag {
    pub const SIGNAL_FLAG_NO_CLD_STOP: u64 = 0x0000_0001;
    pub const SIGNAL_FLAG_NO_CLD_WAIT: u64 = 0x0000_0002;
    pub const SIGNAL_FLAG_SIG_INFO: u64 = 0x0000_0004;
    pub const SIGNAL_FLAG_RESTORER: u64 = 0x0400_0000;
    pub const SIGNAL_FLAG_ON_STACK: u64 = 0x0800_0000;
    pub const SIGNAL_FLAG_RESTART: u64 = 0x1000_0000;
    pub const SIGNAL_FLAG_NO_DEFER: u64 = 0x4000_0000;
    pub const SIGNAL_FLAG_RESET_HANDLER: u64 = 0x8000_0000;

    /// `SA_ONSTACK`: run the handler on the alternate signal stack.
    pub fn IsOnStack(&self) -> (r: bool)
        ensures
            r == (self.0 & SigFlag::SIGNAL_FLAG_ON_STACK != 0),
    {
        self.0 & Self::SIGNAL_FLAG_ON_STACK != 0
    }

    /// `SA_RESTART`: restart an interrupted system call.
    pub fn IsRestart(&self) -> (r: bool)
        ensures
            r == (self.0 & SigFlag::SIGNAL_FLAG_RESTART != 0),
    {
        self.0 & Self::SIGNAL_FLAG_RESTART != 0
    }

    /// `SA_NODEFER`: do not block the signal while its handler runs.
    pub fn IsNoDefer(&self) -> (r: bool)
        ensures
            r == (self.0 & SigFlag::SIGNAL_FLAG_NO_DEFER != 0),
    {
        self.0 & Self::SIGNAL_FLAG_NO_DEFER != 0
    }

    /// `SA_RESETHAND`: go back to the default action once delivered.
    pub fn IsResetHandler(&self) -> (r: bool)
        ensures
            r == (self.0 & SigFlag::SIGNAL_FLAG_RESET_HANDLER != 0),
    {
        self.0 & Self::SIGNAL_FLAG_RESET_HANDLER != 0
    }
}

/// What a thread group does with one signal (`struct sigaction`).
#[derive(Clone, Copy, Debug, PartialEq, Eq, Structural)]
pub struct SigAct {
    /// 0 for the default action, 1 to ignore, else the handler's address.
    pub handler: u64,
    pub flags: SigFlag,
    /// Address that the handler returns to.
    pub restorer: u64,
    /// Signals blocked while the handler runs.
    pub mask: u64,
}

impl SigAct {
    pub const SIGNAL_ACT_DEFAULT: u64 = 0;
    pub const SIGNAL_ACT_IGNORE: u64 = 1;

    /// The action of a signal that nobody has set: default, no flags.
    pub open spec fn unset() -> SigAct {
        SigAct { handler: 0, flags: SigFlag(0), restorer: 0, mask: 0 }
    }
}

impl Default for SigAct {
    fn default() -> (r: SigAct)
        ensures
            r == SigAct::unset(),
    {
        SigAct { handler: 0, flags: SigFlag(0), restorer: 0, mask: 0 }
    }
}

/// What travels with a signal (`siginfo_t`), its union written out field
/// by field: `pid`, `uid` and `status` for `SIGCHLD`, `addr` for a fault.
#[derive(Clone, Copy, Debug, PartialEq, Eq, Structural)]
pub struct SignalInfo {
    pub Signo: i32,
    pub Errno: i32,
    pub Code: i32,
    pub pid: i32,
    pub uid: u32,
    pub status: i32,
    pub addr: u64,
}

impl SignalInfo {
    pub const SIGNAL_INFO_USER: i32 = 0;
    pub const SIGNAL_INFO_KERNEL: i32 = 0x80;
    pub const CLD_EXITED: i32 = 1;
    pub const CLD_KILLED: i32 = 2;
    pub const CLD_DUMPED: i32 = 3;
    pub const CLD_TRAPPED: i32 = 4;
    pub const CLD_STOPPED: i32 = 5;
    pub const CLD_CONTINUED: i32 = 6;

    /// A signal with nothing attached.
    pub open spec fn bare(signo: i32, code: i32) -> SignalInfo {
        SignalInfo { Signo: signo, Errno: 0, Code: code, pid: 0, uid: 0, status: 0, addr: 0 }
    }
}

impl Default for SignalInfo {
    fn default() -> (r: SignalInfo)
        ensures
            r == SignalInfo::bare(0, 0),
    {
        SignalInfo { Signo: 0, Errno: 0, Code: 0, pid: 0, uid: 0, status: 0, addr: 0 }
    }
}

/// The signal that the kernel itself raises, with code `SI_KERNEL`.
pub fn SignalInfoPriv(sig: i32) -> (r: SignalInfo)
    ensures
        r == SignalInfo::bare(sig, SignalInfo::SIGNAL_INFO_KERNEL),
{
    SignalInfo { Signo: sig, Errno: 0, Code: SignalInfo::SIGNAL_INFO_KERNEL, pid: 0, uid: 0, status: 0, addr: 0 }
}

/// How a thread group ended, or will end.
#[derive(Clone, Copy, Debug, PartialEq, Eq, Structural)]
pub struct ExitStatus {
    pub Code: i32,
    pub Signo: i32,
}


/// Bits of the processor's flags register.
pub struct EflagsDef {}

impl EflagsDef {
    /// The flags that a return from a signal handler may set:
    /// CF, PF, AF, ZF, SF, TF, DF, OF, RF and AC.
    pub const EFLAGS_RESTOREABLE: u64 = 0x50dd5;
}

/// The registers of a task as saved on entry to the kernel.
#[derive(Clone, Copy, Debug, PartialEq, Eq, Structural)]
pub struct PtRegs {
    pub r15: u64,
    pub r14: u64,
    pub r13: u64,
    pub r12: u64,
    pub rbp: u64,
    pub rbx: u64,
    pub r11: u64,
    pub r10: u64,
    pub r9: u64,
    pub r8: u64,
    pub rax: u64,
    pub rcx: u64,
    pub rdx: u64,
    pub rsi: u64,
    pub rdi: u64,
    /// The system call number; all ones when no system call is in progress.
    pub orig_rax: u64,
    pub rip: u64,
    pub cs: u64,
    pub eflags: u64,
    pub rsp: u64,
    pub ss: u64,
}

impl PtRegs {
    /// All registers zero.
    pub open spec fn zero() -> PtRegs {
        PtRegs {
            r15: 0,
            r14: 0,
            r13: 0,
            r12: 0,
            rbp: 0,
            rbx: 0,
            r11: 0,
            r10: 0,
            r9: 0,
            r8: 0,
            rax: 0,
            rcx: 0,
            rdx: 0,
            rsi: 0,
            rdi: 0,
            orig_rax: 0,
            rip: 0,
            cs: 0,
            eflags: 0,
            rsp: 0,
            ss: 0,
        }
    }

    /// The registers after those that a signal context holds have been put
    /// back from `c`; `orig_rax` stays.
    pub open spec fn restored(self, c: SigContext) -> PtRegs {
        PtRegs {
            r15: c.r15,
            r14: c.r14,
            r13: c.r13,
            r12: c.r12,
            rbp: c.rbp,
            rbx: c.rbx,
            r11: c.r11,
            r10: c.r10,
            r9: c.r9,
            r8: c.r8,
            rax: c.rax,
            rcx: c.rcx,
            rdx: c.rdx,
            rsi: c.rsi,
            rdi: c.rdi,
            orig_rax: self.orig_rax,
            rip: c.rip,
            cs: c.cs as u64,
            eflags: c.eflags,
            rsp: c.rsp,
            ss: c.ss as u64,
        }
    }

    /// Puts back the registers that `c` holds.
    pub fn Load(&mut self, c: &SigContext)
        ensures
            *final(self) == old(self).restored(*c),
    {
        self.r15 = c.r15;
        self.r14 = c.r14;
        self.r13 = c.r13;
        self.r12 = c.r12;
        self.rbp = c.rbp;
        self.rbx = c.rbx;
        self.r11 = c.r11;
        self.r10 = c.r10;
        self.r9 = c.r9;
        self.r8 = c.r8;
        self.rax = c.rax;
        self.rcx = c.rcx;
        self.rdx = c.rdx;
        self.rsi = c.rsi;
        self.rdi = c.rdi;
        self.rip = c.rip;
        self.cs = c.cs as u64;
        self.eflags = c.eflags;
        self.rsp = c.rsp;
        self.ss = c.ss as u64;
    }
}

impl Default for PtRegs {
    fn default() -> (r: PtRegs)
        ensures
            r == PtRegs::zero(),
    {
        PtRegs {
            r15: 0,
            r14: 0,
            r13: 0,
            r12: 0,
            rbp: 0,
            rbx: 0,
            r11: 0,
            r10: 0,
            r9: 0,
            r8: 0,
            rax: 0,
            rcx: 0,
            rdx: 0,
            rsi: 0,
            rdi: 0,
            orig_rax: 0,
            rip: 0,
            cs: 0,
            eflags: 0,
            rsp: 0,
            ss: 0,
        }
    }
}

/// The alternate stack on which a thread may run its signal handlers
/// (`stack_t`).
#[derive(Clone, Copy, Debug, PartialEq, Eq, Structural)]
pub struct SignalStack {
    /// The lowest address of the stack.
    pub addr: u64,
    pub flags: u32,
    pub size: u64,
}

impl SignalStack {
    /// The thread runs on this stack.
    pub const FLAG_ON_STACK: u32 = 1;
    /// The thread has no alternate stack.
    pub const FLAG_DISABLE: u32 = 2;

    /// The address just above the stack, modulo 2^64.
    pub open spec fn top(self) -> u64 {
        if self.addr + self.size <= u64::MAX {
            (self.addr + self.size) as u64
        } else {
            (self.addr + self.size - 0x1_0000_0000_0000_0000) as u64
        }
    }

    /// Whether `sp` points into the stack: above its lowest address and not
    /// above its top.
    pub open spec fn contains(self, sp: u64) -> bool {
        self.addr < sp && sp <= self.top()
    }

    /// Whether the thread has an alternate stack.
    pub fn IsEnable(&self) -> (r: bool)
        ensures
            r == (self.flags & SignalStack::FLAG_DISABLE == 0),
    {
        self.flags & Self::FLAG_DISABLE == 0
    }

    /// Marks the stack as the one the thread runs on.
    pub fn SetOnStack(&mut self)
        ensures
            *final(self) == (SignalStack { flags: old(self).flags | SignalStack::FLAG_ON_STACK, ..*old(self) }),
    {
        self.flags = self.flags | Self::FLAG_ON_STACK;
    }

    /// The address just above the stack.
    pub fn Top(&self) -> (r: u64)
        ensures
            r == self.top(),
    {
        self.addr.wrapping_add(self.size)
    }

    /// Whether `sp` points into the stack.
    pub fn Contains(&self, sp: u64) -> (r: bool)
        ensures
            r == self.contains(sp),
    {
        self.addr < sp && sp <= self.Top()
    }
}

/// The machine context that a signal frame holds (`struct sigcontext`).
#[derive(Clone, Copy, Debug, PartialEq, Eq, Structural)]
pub struct SigContext {
    pub r8: u64,
    pub r9: u64,
    pub r10: u64,
    pub r11: u64,
    pub r12: u64,
    pub r13: u64,
    pub r14: u64,
    pub r15: u64,
    pub rdi: u64,
    pub rsi: u64,
    pub rbp: u64,
    pub rbx: u64,
    pub rdx: u64,
    pub rax: u64,
    pub rcx: u64,
    pub rsp: u64,
    pub rip: u64,
    pub eflags: u64,
    pub cs: u16,
    pub gs: u16,
    pub fs: u16,
    pub ss: u16,
    pub err: u64,
    pub trapno: u64,
    /// The signal mask to put back when the handler returns.
    pub oldmask: u64,
    /// The faulting address, for `SIGBUS` and `SIGSEGV`.
    pub cr2: u64,
    pub fpstate: u64,
}

impl SigContext {
    /// The context that holds the registers `pt`.
    pub open spec fn of(pt: PtRegs, oldmask: u64, cr2: u64, fpstate: u64) -> SigContext {
        SigContext {
            r8: pt.r8,
            r9: pt.r9,
            r10: pt.r10,
            r11: pt.r11,
            r12: pt.r12,
            r13: pt.r13,
            r14: pt.r14,
            r15: pt.r15,
            rdi: pt.rdi,
            rsi: pt.rsi,
            rbp: pt.rbp,
            rbx: pt.rbx,
            rdx: pt.rdx,
            rax: pt.rax,
            rcx: pt.rcx,
            rsp: pt.rsp,
            rip: pt.rip,
            eflags: pt.eflags,
            cs: (pt.cs & 0xffff) as u16,
            gs: 0,
            fs: 0,
            ss: (pt.ss & 0xffff) as u16,
            err: 0,
            trapno: 0,
            oldmask,
            cr2,
            fpstate,
        }
    }

    /// Saves the registers `pt` in a context.
    pub fn New(pt: &PtRegs, oldmask: u64, cr2: u64, fpstate: u64) -> (r: SigContext)
        ensures
            r == SigContext::of(*pt, oldmask, cr2, fpstate),
    {
        let c: u64 = pt.cs;
        let s: u64 = pt.ss;
        let cs: u64 = c & 0xffff;
        let ss: u64 = s & 0xffff;
        assert(c & 0xffff <= 0xffff) by (bit_vector);
        assert(s & 0xffff <= 0xffff) by (bit_vector);
        SigContext {
            r8: pt.r8,
            r9: pt.r9,
            r10: pt.r10,
            r11: pt.r11,
            r12: pt.r12,
            r13: pt.r13,
            r14: pt.r14,
            r15: pt.r15,
            rdi: pt.rdi,
            rsi: pt.rsi,
            rbp: pt.rbp,
            rbx: pt.rbx,
            rdx: pt.rdx,
            rax: pt.rax,
            rcx: pt.rcx,
            rsp: pt.rsp,
            rip: pt.rip,
            eflags: pt.eflags,
            cs: cs as u16,
            gs: 0,
            fs: 0,
            ss: ss as u16,
            err: 0,
            trapno: 0,
            oldmask,
            cr2,
            fpstate,
        }
    }
}

/// The user context of a signal frame (`ucontext_t`).
#[derive(Clone, Copy, Debug, PartialEq, Eq, Structural)]
pub struct UContext {
    pub Flags: u64,
    pub Link: u64,
    /// The alternate stack in force when the frame was built.
    pub Stack: SignalStack,
    pub MContext: SigContext,
    pub Sigset: u64,
}

impl UContext {
    /// The context of a signal frame for registers `pt`.
    pub open spec fn of(pt: PtRegs, oldmask: u64, cr2: u64, fpstate: u64, alt: SignalStack) -> UContext {
        UContext { Flags: 2, Link: 0, Stack: alt, MContext: SigContext::of(pt, oldmask, cr2, fpstate), Sigset: 0 }
    }

    /// Builds the context of a signal frame.
    pub fn New(pt: &PtRegs, oldmask: u64, cr2: u64, fpstate: u64, alt: &SignalStack) -> (r: UContext)
        ensures
            r == UContext::of(*pt, oldmask, cr2, fpstate, *alt),
    {
        UContext { Flags: 2, Link: 0, Stack: *alt, MContext: SigContext::New(pt, oldmask, cr2, fpstate), Sigset: 0 }
    }
}

} // verus!
