//! Where the arguments, the environment and the auxiliary vector of a new
//! program stand on its stack.

use vstd::prelude::*;
use crate::qlib::common::Error;
use crate::qlib::common::SysErr;

verus! {

/// An entry of the auxiliary vector.
#[derive(Clone, Copy, Debug, PartialEq, Eq, Structural)]
pub struct AuxEntry {
    pub Key: u64,
    pub Val: u64,
}

/// Keys of the auxiliary vector.
pub struct AuxVec {}

impl AuxVec {
    pub const AT_NULL: u64 = 0;
    pub const AT_PAGESZ: u64 = 6;
    pub const AT_FLAGS: u64 = 8;
    pub const AT_UID: u64 = 11;
    pub const AT_EUID: u64 = 12;
    pub const AT_GID: u64 = 13;
    pub const AT_EGID: u64 = 14;
    pub const AT_PLATFORM: u64 = 15;
    pub const AT_HWCAP: u64 = 16;
    pub const AT_CLKTCK: u64 = 17;
    pub const AT_SECURE: u64 = 23;
    pub const AT_RANDOM: u64 = 25;
    pub const AT_HWCAP2: u64 = 26;
    pub const AT_EXECFN: u64 = 31;
    pub const AT_SYSINFO_EHDR: u64 = 33;
}

/// Where the strings of the arguments and of the environment stand.
#[derive(Clone, Copy, Debug, PartialEq, Eq, Structural)]
pub struct StackLayout {
    pub ArgvStart: u64,
    pub ArgvEnd: u64,
    pub EnvvStart: u64,
    pub EnvvEnd: u64,
}

/// Bytes that a string takes on the stack, its final 0 counted.
pub open spec fn StrSize(s: Seq<u8>) -> int {
    (s.len() + 1) as int
}

/// Bytes that the strings from position `j` on take.
pub open spec fn Tail(strs: Seq<Seq<u8>>, j: int) -> int
    decreases strs.len() - j,
{
    if j < 0 || j >= strs.len() {
        0
    } else {
        StrSize(strs[j]) + Tail(strs, j + 1)
    }
}

/// The strings take at least a byte each.
pub proof fn lemma_tail(strs: Seq<Seq<u8>>, j: int)
    requires
        0 <= j <= strs.len(),
    ensures
        Tail(strs, j) >= strs.len() - j,
        j < strs.len() ==> Tail(strs, j) == StrSize(strs[j]) + Tail(strs, j + 1),
    decreases strs.len() - j,
{
    if j < strs.len() {
        lemma_tail(strs, j + 1);
    }
}

/// The lengths of byte strings.
pub open spec fn Texts(v: Seq<Vec<u8>>) -> Seq<Seq<u8>> {
    Seq::new(v.len(), |i: int| v[i]@)
}

/// The stack of a new program, worked out from the address `top` just
/// above it. All addresses are whole numbers here; the stack fits if none
/// is negative.
pub struct StackMap {
    pub top: int,
    pub argv: Seq<Seq<u8>>,
    pub envv: Seq<Seq<u8>>,
    /// How many entries the auxiliary vector has, its end marker counted.
    pub auxc: int,
}

impl StackMap {
    /// The platform string `x86_64`, at the very top.
    pub open spec fn platform(self) -> int {
        self.top - 7
    }

    /// The 16 random bytes, below the platform string.
    pub open spec fn random(self) -> int {
        self.platform() - 16
    }

    /// The name that the program was run by, a copy of its first argument.
    pub open spec fn execfn(self) -> int {
        self.random() - StrSize(self.argv[0])
    }

    /// The address just above the strings of the environment: the name,
    /// rounded down to 16 bytes.
    pub open spec fn envvEnd(self) -> int {
        self.execfn() - self.execfn() % 16
    }

    /// Where string `j` of the environment stands: the strings stand in
    /// their order, the last one highest.
    pub open spec fn env(self, j: int) -> int {
        self.envvEnd() - Tail(self.envv, j)
    }

    /// Where argument `i` stands: the arguments stand in their order, right
    /// below the environment.
    pub open spec fn arg(self, i: int) -> int {
        self.env(0) - Tail(self.argv, i)
    }

    /// How many words stand below the strings: the count of arguments, a
    /// pointer for each argument and a null, a pointer for each string of
    /// the environment and a null, and two words for each entry of the
    /// auxiliary vector.
    pub open spec fn wordCount(self) -> int {
        1 + (self.argv.len() + 1) + (self.envv.len() + 1) + 2 * self.auxc
    }

    /// The lowest address that the words could start at.
    pub open spec fn unaligned(self) -> int {
        self.arg(0) - 8 * self.wordCount()
    }

    /// The stack pointer of the new program: where the words start, a
    /// multiple of 32.
    pub open spec fn sp(self) -> int {
        self.unaligned() - self.unaligned() % 32
    }

    /// Whether the stack fits below `top`.
    pub open spec fn fits(self) -> bool {
        self.execfn() >= 0 && self.unaligned() >= 0
    }

    /// The word that stands `k` words above the stack pointer.
    ///
    /// From the stack pointer up: the count of arguments; the address of
    /// each argument, and a null; the address of each string of the
    /// environment, and a null; then the auxiliary vector with its last
    /// entry first, key before value, so that the end marker, which is the
    /// first entry of `aux`, stands last.
    pub open spec fn word(self, aux: Seq<AuxEntry>, k: int) -> u64 {
        let argc = self.argv.len() as int;
        let envc = self.envv.len() as int;
        if k == 0 {
            argc as u64
        } else if k <= argc {
            self.arg(k - 1) as u64
        } else if k == argc + 1 {
            0
        } else if k <= argc + 1 + envc {
            self.env(k - argc - 2) as u64
        } else if k == argc + envc + 2 {
            0
        } else {
            let m = k - (argc + envc + 3);
            let e = aux[aux.len() - 1 - m / 2];
            if m % 2 == 0 {
                e.Key
            } else {
                e.Val
            }
        }
    }
}

/// What the loader writes to the stack of a new program, and where.
pub struct UserStackPlan {
    /// Where the platform string `x86_64` goes.
    pub platform: u64,
    /// Where the two random words go, the second below the first.
    pub random: u64,
    pub rand1: u64,
    pub rand2: u64,
    /// Where the copy of the first argument goes.
    pub execfn: u64,
    /// Where each string of the environment goes.
    pub envAddrs: Vec<u64>,
    /// Where each argument goes.
    pub argAddrs: Vec<u64>,
    /// The words that go from the stack pointer up.
    pub words: Vec<u64>,
    /// The stack pointer of the new program.
    pub sp: u64,
    pub layout: StackLayout,
}

impl UserStackPlan {
    /// Whether the plan is the one that `m` and the auxiliary vector `aux`
    /// call for.
    pub open spec fn follows(&self, m: StackMap, aux: Seq<AuxEntry>, rand1: u64, rand2: u64) -> bool {
        &&& self.platform == m.platform()
        &&& self.random == m.random()
        &&& self.rand1 == rand1
        &&& self.rand2 == rand2
        &&& self.execfn == m.execfn()
        &&& self.envAddrs@.len() == m.envv.len()
        &&& forall|j: int| 0 <= j < m.envv.len() ==> #[trigger] self.envAddrs@[j] == m.env(j)
        &&& self.argAddrs@.len() == m.argv.len()
        &&& forall|i: int| 0 <= i < m.argv.len() ==> #[trigger] self.argAddrs@[i] == m.arg(i)
        &&& self.words@.len() == m.wordCount()
        &&& forall|k: int| 0 <= k < m.wordCount() ==> #[trigger] self.words@[k] == m.word(aux, k)
        &&& self.sp == m.sp()
        &&& self.sp % 32 == 0
        &&& self.layout == (StackLayout {
            ArgvStart: m.arg(0) as u64,
            ArgvEnd: m.env(0) as u64,
            EnvvStart: m.env(0) as u64,
            EnvvEnd: m.envvEnd() as u64,
        })
    }
}

/// Places `strs` below `from`, the last one highest. Returns the address
/// of each and the address of the lowest; `None` if they do not fit above
/// address 0.
fn placeStrings(strs: &Vec<Vec<u8>>, from: u64) -> (r: Option<(Vec<u64>, u64)>)
    ensures
        match r {
            Some((addrs, low)) => {
                &&& from - Tail(Texts(strs@), 0) >= 0
                &&& low == from - Tail(Texts(strs@), 0)
                &&& addrs@.len() == strs@.len()
                &&& forall|j: int| 0 <= j < strs@.len() ==> #[trigger] addrs@[j] == from - Tail(Texts(strs@), j)
            },
            None => from - Tail(Texts(strs@), 0) < 0,
        },
{
    let n = strs.len();
    let ghost texts = Texts(strs@);
    let mut addrs: Vec<u64> = Vec::new();
    let mut k: usize = 0;
    while k < n
        invariant
            k <= n,
            addrs@.len() == k,
        decreases n - k,
    {
        addrs.push(0);
        k = k + 1;
    }
    let mut sp = from;
    let mut j: usize = n;
    while j > 0
        invariant
            j <= n,
            n == strs@.len(),
            texts == Texts(strs@),
            addrs@.len() == n,
            sp == from - Tail(texts, j as int),
            forall|i: int| j <= i < n ==> #[trigger] addrs@[i] == from - Tail(texts, i),
        decreases j,
    {
        j = j - 1;
        proof {
            lemma_tail(texts, j as int);
            lemma_tail(texts, 0);
            lemma_tail_grows(texts, 0, j as int);
        }
        let len = strs[j].len();
        if len as u64 >= sp {
            return None;
        }
        sp = sp - (len as u64 + 1);
        addrs[j] = sp;
    }
    Some((addrs, sp))
}

/// The strings from an earlier position on take no less than those from
/// a later one.
pub proof fn lemma_tail_grows(strs: Seq<Seq<u8>>, a: int, b: int)
    requires
        0 <= a <= b <= strs.len(),
    ensures
        Tail(strs, a) >= Tail(strs, b),
    decreases b - a,
{
    if a < b {
        lemma_tail(strs, a);
        lemma_tail_grows(strs, a + 1, b);
    }
}

/// Works out the stack of a new program below `top`: where its strings
/// go, and the words that point to them.
///
/// `aux` is the auxiliary vector with its end marker first. `EFAULT` if
/// the stack does not fit above address 0.
#[verifier::rlimit(50)]
pub fn PlanStack(
    top: u64,
    argv: &Vec<Vec<u8>>,
    envv: &Vec<Vec<u8>>,
    aux: &Vec<AuxEntry>,
    rand1: u64,
    rand2: u64,
) -> (r: Result<UserStackPlan, Error>)
    requires
        argv@.len() > 0,
        argv@.len() + envv@.len() + 2 * aux@.len() + 3 <= usize::MAX,
    ensures
        ({
            let m = StackMap { top: top as int, argv: Texts(argv@), envv: Texts(envv@), auxc: aux@.len() as int };
            match r {
                Ok(plan) => m.fits() && plan.follows(m, aux@, rand1, rand2),
                Err(e) => !m.fits() && e == Error::SysError(SysErr::EFAULT),
            }
        }),
{
    let ghost m = StackMap { top: top as int, argv: Texts(argv@), envv: Texts(envv@), auxc: aux@.len() as int };
    proof {
        lemma_tail(m.envv, 0);
        lemma_tail(m.argv, 0);
    }
    let first = argv[0].len();
    assert(m.argv[0] == argv@[0]@);
    if top < 23 || (top - 23) <= first as u64 {
        return Err(Error::SysError(SysErr::EFAULT));
    }
    let platform = top - 7;
    let random = platform - 16;
    let execfn = random - (first as u64 + 1);
    let envvEnd = execfn - execfn % 16;
    let (envAddrs, envvStart) = match placeStrings(envv, envvEnd) {
        Some(p) => p,
        None => {
            return Err(Error::SysError(SysErr::EFAULT));
        },
    };
    let (argAddrs, argvStart) = match placeStrings(argv, envvStart) {
        Some(p) => p,
        None => {
            return Err(Error::SysError(SysErr::EFAULT));
        },
    };
    let argc = argv.len();
    let envc = envv.len();
    let auxc = aux.len();
    let count: usize = 1 + (argc + 1) + (envc + 1) + 2 * auxc;
    if count as u64 > argvStart / 8 {
        return Err(Error::SysError(SysErr::EFAULT));
    }
    let bytes: u64 = 8 * (count as u64);
    let unaligned = argvStart - bytes;
    let sp = unaligned - unaligned % 32;

    let mut words: Vec<u64> = Vec::new();
    words.push(argc as u64);
    let mut i: usize = 0;
    while i < argc
        invariant
            i <= argc,
            argc == m.argv.len(),
            envc == m.envv.len(),
            argAddrs@.len() == argc,
            forall|a: int| 0 <= a < argc ==> #[trigger] argAddrs@[a] == m.arg(a),
            words@.len() == 1 + i,
            forall|k: int| 0 <= k < words@.len() ==> #[trigger] words@[k] == m.word(aux@, k),
        decreases argc - i,
    {
        words.push(argAddrs[i]);
        i = i + 1;
    }
    words.push(0);
    let mut j: usize = 0;
    while j < envc
        invariant
            j <= envc,
            argc == m.argv.len(),
            envc == m.envv.len(),
            envAddrs@.len() == envc,
            forall|a: int| 0 <= a < envc ==> #[trigger] envAddrs@[a] == m.env(a),
            words@.len() == argc + 2 + j,
            forall|k: int| 0 <= k < words@.len() ==> #[trigger] words@[k] == m.word(aux@, k),
        decreases envc - j,
    {
        words.push(envAddrs[j]);
        j = j + 1;
    }
    words.push(0);
    let mut a: usize = 0;
    while a < auxc
        invariant
            a <= auxc,
            auxc == aux@.len(),
            argc == m.argv.len(),
            envc == m.envv.len(),
            count == 1 + (argc + 1) + (envc + 1) + 2 * auxc,
            words@.len() == argc + envc + 3 + 2 * a,
            forall|k: int| 0 <= k < words@.len() ==> #[trigger] words@[k] == m.word(aux@, k),
        decreases auxc - a,
    {
        let e = aux[auxc - 1 - a];
        words.push(e.Key);
        words.push(e.Val);
        a = a + 1;
    }
    Ok(
        UserStackPlan {
            platform,
            random,
            rand1,
            rand2,
            execfn,
            envAddrs,
            argAddrs,
            words,
            sp,
            layout: StackLayout { ArgvStart: argvStart, ArgvEnd: envvStart, EnvvStart: envvStart, EnvvEnd: envvEnd },
        },
    )
}

} // verus!
