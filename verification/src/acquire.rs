//! Capability acquisition: the bounded retry schedule and the process-wide
//! resolution cache.
//!
//! The kernel component may expose its handle through either of two
//! mechanisms, depending on the kernel build: a lightweight process-control
//! call, or a disguised system call carrying two fixed magic words and a
//! command discriminator.  The client tries both on a fixed schedule of
//! four rounds; within a round, the process-control call once and the
//! disguised call up to twice.  The caller performs the attempts and the
//! sleeps; this module decides, step by step, what comes next.
//!
//! Whatever the first resolution produced — a handle or a failure — is
//! sticky for the life of the process: the cache never re-attempts.

use vstd::prelude::*;

verus! {

/// First argument of the process-control acquisition call.
pub const PRCTL_GET_FD: i32 = 0x48594d30;

/// First magic word of the disguised system call.
pub const MAGIC1: u64 = 0x48594d4f;

/// Second magic word of the disguised system call.
pub const MAGIC2: u64 = 0x4f4d5948;

/// Command discriminator of the disguised system call that requests the
/// descriptor.
pub const CMD_GET_FD: u64 = 1;

/// Number of rounds in the schedule.
pub const ACQUIRE_ROUNDS: u8 = 4;

/// Attempts per round: one process-control call, two disguised calls.
pub const ATTEMPTS_PER_ROUND: u8 = 3;

/// Total attempts before acquisition gives up.
pub const ACQUIRE_TOTAL_ATTEMPTS: u8 = 12;

/// Milliseconds slept before each round after the first.
pub const ROUND_SLEEP_MS: u32 = 1000;

/// Milliseconds slept before the second disguised call of a round.
pub const RETRY_SLEEP_MS: u32 = 80;

/// One of the two acquisition mechanisms.
#[derive(Clone, Copy, Debug, PartialEq, Eq, Structural)]
pub enum Mechanism {
    /// The lightweight process-control call.
    ProcessControl,
    /// The disguised system call with the two magic words.
    MagicSyscall,
}

/// One step of the schedule: sleep this long, then try this mechanism.
#[derive(Clone, Copy, Debug, PartialEq, Eq, Structural)]
pub struct AttemptPlan {
    pub mechanism: Mechanism,
    pub sleep_before_ms: u32,
}

/// The plan of attempt `i` of the schedule: attempts come in rounds of
/// three; the first of each round is the process-control call, preceded
/// by a one-second sleep in every round but the first; the other two are
/// the disguised call, with an 80 ms pause before the second of them.
pub open spec fn plan_at(i: int) -> AttemptPlan {
    let step = i % 3;
    if step == 0 {
        AttemptPlan {
            mechanism: Mechanism::ProcessControl,
            sleep_before_ms: if i >= 3 {
                ROUND_SLEEP_MS
            } else {
                0
            },
        }
    } else {
        AttemptPlan {
            mechanism: Mechanism::MagicSyscall,
            sleep_before_ms: if step == 2 {
                RETRY_SLEEP_MS
            } else {
                0
            },
        }
    }
}

/// Whether a descriptor returned by either mechanism is a valid handle.
pub open spec fn valid_descriptor(fd: i32) -> bool {
    fd >= 0
}

/// Tells whether a returned descriptor is a valid handle.
pub fn is_valid_descriptor(fd: i32) -> (r: bool)
    ensures
        r == valid_descriptor(fd),
{
    fd >= 0
}

/// Walks the acquisition schedule, one attempt at a time.
pub struct AcquireSchedule {
    taken: u8,
}

impl AcquireSchedule {
    /// Number of attempts handed out so far.
    pub closed spec fn attempts_taken(self) -> int {
        self.taken as int
    }

    /// A fresh schedule, before any attempt.
    pub fn new() -> (s: AcquireSchedule)
        ensures
            s.attempts_taken() == 0,
    {
        AcquireSchedule { taken: 0 }
    }

    /// Whether the schedule still has attempts left.
    pub fn exhausted(&self) -> (r: bool)
        ensures
            r == (self.attempts_taken() >= ACQUIRE_TOTAL_ATTEMPTS),
    {
        self.taken >= ACQUIRE_TOTAL_ATTEMPTS
    }

    /// Hands out the next attempt of the schedule, or nothing once all
    /// twelve are spent.
    pub fn next_attempt(&mut self) -> (r: Option<AttemptPlan>)
        ensures
            old(self).attempts_taken() < ACQUIRE_TOTAL_ATTEMPTS ==> r == Some(
                plan_at(old(self).attempts_taken()),
            ) && final(self).attempts_taken() == old(self).attempts_taken() + 1,
            old(self).attempts_taken() >= ACQUIRE_TOTAL_ATTEMPTS ==> r is None && *final(self)
                == *old(self),
    {
        if self.taken >= ACQUIRE_TOTAL_ATTEMPTS {
            return None;
        }
        let step: u8 = self.taken % 3;
        let plan = if step == 0 {
            AttemptPlan {
                mechanism: Mechanism::ProcessControl,
                sleep_before_ms: if self.taken >= 3 {
                    ROUND_SLEEP_MS
                } else {
                    0
                },
            }
        } else {
            AttemptPlan {
                mechanism: Mechanism::MagicSyscall,
                sleep_before_ms: if step == 2 {
                    RETRY_SLEEP_MS
                } else {
                    0
                },
            }
        };
        self.taken += 1;
        Some(plan)
    }
}

/// The resolved state of the process-wide capability lookup.
enum CapState {
    Unresolved,
    Ready(i32),
    Unavailable,
}

/// The process-wide cache of the capability lookup.  It resolves exactly
/// once: the first outcome, success or failure, is kept for the life of
/// the process and never re-attempted.
pub struct CapabilityCache {
    state: CapState,
}

impl CapabilityCache {
    /// Whether the lookup has been resolved, either way.
    pub closed spec fn resolved(self) -> bool {
        !(self.state is Unresolved)
    }

    /// Whether the lookup resolved to a handle.
    pub closed spec fn available(self) -> bool {
        self.state is Ready
    }

    /// The cached handle, when available.
    pub closed spec fn handle_spec(self) -> i32 {
        self.state->Ready_0
    }

    /// A fresh, unresolved cache.
    pub fn new() -> (c: CapabilityCache)
        ensures
            !c.resolved(),
    {
        CapabilityCache { state: CapState::Unresolved }
    }

    /// Whether the acquisition protocol still needs to run.
    pub fn needs_acquisition(&self) -> (r: bool)
        ensures
            r == !self.resolved(),
    {
        matches!(self.state, CapState::Unresolved)
    }

    /// Records the handle that acquisition produced.  Only an unresolved
    /// cache accepts one; resolution is final.
    pub fn install_handle(&mut self, fd: i32)
        requires
            !old(self).resolved(),
            valid_descriptor(fd),
        ensures
            final(self).resolved(),
            final(self).available(),
            final(self).handle_spec() == fd,
    {
        self.state = CapState::Ready(fd);
    }

    /// Records that acquisition failed.  Only an unresolved cache accepts
    /// the verdict; resolution is final.
    pub fn mark_unavailable(&mut self)
        requires
            !old(self).resolved(),
        ensures
            final(self).resolved(),
            !final(self).available(),
    {
        self.state = CapState::Unavailable;
    }

    /// The cached handle, or nothing when the component is unavailable or
    /// the lookup has not run.
    pub fn handle(&self) -> (r: Option<i32>)
        ensures
            self.available() ==> r == Some(self.handle_spec()),
            !self.available() ==> r is None,
    {
        match self.state {
            CapState::Ready(fd) => Some(fd),
            _ => None,
        }
    }
}

} // verus!
