//! How signals that the host sends to the supervisor reach the guest.

use vstd::prelude::*;

verus! {

/// How many signals are no real-time signals, signal 0 counted.
pub const NUM_SIGNALS: usize = 32;

/// Whom in the guest a relayed signal is for.
#[derive(Clone, Copy, Debug, PartialEq, Eq, Structural)]
pub enum SignalDeliveryMode {
    /// The process that the signal names.
    DeliverToProcess,
    /// Every process of the process group in the foreground of the
    /// terminal.
    DeliverToForegroundProcessGroup,
}

/// A signal on its way to the guest.
#[derive(Clone, Copy, Debug, PartialEq, Eq, Structural)]
pub struct SignalArgs {
    pub Signo: i32,
    pub PID: i32,
    pub Mode: SignalDeliveryMode,
}

/// What the host tells of a fault that raised a signal.
#[derive(Clone, Copy, Debug, PartialEq, Eq, Structural)]
pub struct SignalFaultInfo {
    /// Signal number.
    pub Signo: i32,
    /// Errno value.
    pub Errno: i32,
    /// Signal code.
    pub Code: i32,
    pub _r: u32,
    pub addr: u64,
    pub lsb: u16,
}

/// Whether the supervisor relays signals, and whether the sandbox has a
/// terminal.
#[derive(Clone, Copy, Debug, PartialEq, Eq, Structural)]
pub struct SignalRelay {
    pub enabled: bool,
    pub console: bool,
}

impl SignalRelay {
    /// A relay that is switched off, for a sandbox without a terminal.
    pub fn New() -> (r: SignalRelay)
        ensures
            r == (SignalRelay { enabled: false, console: false }),
    {
        SignalRelay { enabled: false, console: false }
    }

    /// What to send to the guest for the host signal `signal`: nothing
    /// while the relay is off; else the signal, for the process group in
    /// the foreground if the sandbox has a terminal, else for the process.
    pub fn Relay(&self, signal: i32) -> (r: Option<SignalArgs>)
        ensures
            r == if self.enabled {
                Some(
                    SignalArgs {
                        Signo: signal,
                        PID: 0,
                        Mode: if self.console {
                            SignalDeliveryMode::DeliverToForegroundProcessGroup
                        } else {
                            SignalDeliveryMode::DeliverToProcess
                        },
                    },
                )
            } else {
                None
            },
    {
        if self.enabled {
            Some(
                SignalArgs {
                    Signo: signal,
                    PID: 0,
                    Mode: if self.console {
                        SignalDeliveryMode::DeliverToForegroundProcessGroup
                    } else {
                        SignalDeliveryMode::DeliverToProcess
                    },
                },
            )
        } else {
            None
        }
    }
}

/// Switches the relay on.
pub fn StartSignalHandle(relay: &mut SignalRelay)
    ensures
        *final(relay) == (SignalRelay { enabled: true, ..*old(relay) }),
{
    relay.enabled = true;
}

/// Switches the relay off.
pub fn StopSignalHandle(relay: &mut SignalRelay)
    ensures
        *final(relay) == (SignalRelay { enabled: false, ..*old(relay) }),
{
    relay.enabled = false;
}

/// Says whether the sandbox has a terminal.
pub fn SetConole(relay: &mut SignalRelay, terminal: bool)
    ensures
        *final(relay) == (SignalRelay { console: terminal, ..*old(relay) }),
{
    relay.console = terminal;
}

/// Whether the supervisor takes the host signal `signo` to relay it: every
/// signal from 1 to 31 but `SIGKILL` and `SIGSTOP`, which no handler can
/// take.
pub open spec fn Relayed(signo: int) -> bool {
    1 <= signo < 32 && signo != 9 && signo != 19
}

/// The host signals that the supervisor installs its handler for, in
/// rising order.
pub fn HandledSignals() -> (r: Vec<i32>)
    ensures
        forall|s: int| Relayed(s) <==> r@.contains(s as i32) && -0x8000_0000 <= s < 0x8000_0000,
        forall|i: int, j: int| 0 <= i < j < r@.len() ==> r@[i] < r@[j],
{
    let mut out: Vec<i32> = Vec::new();
    let mut i: i32 = 1;
    while i < NUM_SIGNALS as i32
        invariant
            1 <= i <= 32,
            forall|s: int| (Relayed(s) && s < i) <==> out@.contains(s as i32) && -0x8000_0000 <= s < 0x8000_0000,
            forall|a: int, b: int| 0 <= a < b < out@.len() ==> out@[a] < out@[b],
            forall|a: int| 0 <= a < out@.len() ==> out@[a] < i,
        decreases 32 - i,
    {
        if i != 9 && i != 19 {
            let ghost before = out@;
            out.push(i);
            proof {
                assert forall|s: int| (Relayed(s) && s < i + 1) <==> out@.contains(s as i32) && -0x8000_0000 <= s
                    < 0x8000_0000 by {
                    if -0x8000_0000 <= s < 0x8000_0000 {
                        if out@.contains(s as i32) {
                            let k = choose|k: int| 0 <= k < out@.len() && out@[k] == s as i32;
                            if k < before.len() {
                                assert(before[k] == s as i32);
                                assert(before.contains(s as i32));
                            }
                        }
                        if Relayed(s) && s < i {
                            assert(before.contains(s as i32));
                            let k = choose|k: int| 0 <= k < before.len() && before[k] == s as i32;
                            assert(out@[k] == s as i32);
                        }
                        if s == i {
                            assert(out@[before.len() as int] == i);
                        }
                    }
                }
            }
        }
        i = i + 1;
    }
    out
}

} // verus!
