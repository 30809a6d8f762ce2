//! Threads of the running program, and thread sleeping.
use vstd::prelude::*;

use crate::sys::result::SceResult;
use crate::sys::thread::ThreadId;
use crate::time::{max_duration_nanos, Duration, NANOS_PER_MICRO};

verus! {

/// A thread of the running program.
pub struct Thread {
    id: ThreadId,
}

impl Thread {
    /// The identifier of the thread.
    pub closed spec fn spec_id(&self) -> ThreadId {
        self.id
    }

    /// The identifier of the thread.
    pub fn id(&self) -> (r: ThreadId)
        ensures
            r == self.spec_id(),
    {
        self.id
    }

    /// Gives up the handle, keeping only the identifier of the thread.
    pub fn into_id(self) -> (r: ThreadId)
        ensures
            r == self.spec_id(),
    {
        self.id
    }
}

/// The number of threads that can run at the same time: the PSP has one processor core for
/// programs.
pub fn available_parallelism() -> (r: usize)
    ensures
        r == 1,
{
    1
}

/// The whole microseconds a sleep of `nanos` nanoseconds lasts: rounded up, so that the
/// thread never wakes early.
pub open spec fn sleep_micros(nanos: nat) -> nat {
    nanos / (NANOS_PER_MICRO as nat) + if nanos % (NANOS_PER_MICRO as nat) != 0 {
        1nat
    } else {
        0nat
    }
}

/// A sleep never ends before the duration has passed, and it lasts less than one
/// microsecond longer.
pub proof fn lemma_sleep_covers_duration(nanos: nat)
    ensures
        sleep_micros(nanos) * (NANOS_PER_MICRO as nat) >= nanos,
        sleep_micros(nanos) * (NANOS_PER_MICRO as nat) < nanos + (NANOS_PER_MICRO as nat),
{
    assert(nanos == (nanos / 1000) * 1000 + nanos % 1000) by (nonlinear_arith);
}

/// A sleep in progress. The kernel delays a thread by at most `u32::MAX` microseconds at a
/// time, so a long sleep is made of several delays; a delay that the kernel refuses is tried
/// again.
pub struct SleepPlan {
    remaining: u128,
    total: Ghost<nat>,
}

impl SleepPlan {
    #[verifier::type_invariant]
    spec fn inv(self) -> bool {
        self.remaining <= self.total@
    }

    /// The microseconds the whole sleep lasts.
    pub closed spec fn total(self) -> nat {
        self.total@
    }

    /// The microseconds of the sleep still to come.
    pub closed spec fn remaining(self) -> nat {
        self.remaining as nat
    }

    /// The microseconds the thread has been delayed so far.
    pub open spec fn slept(self) -> nat {
        (self.total() - self.remaining()) as nat
    }

    /// Plans a sleep of `dur`: its length in microseconds, rounded up.
    pub fn new(dur: &Duration) -> (r: SleepPlan)
        ensures
            r.total() == sleep_micros(dur@),
            r.remaining() == r.total(),
    {
        let micros = dur.as_micros();
        let sub_nanos = dur.subsec_nanos();
        assert(sub_nanos % 1000 == dur@ % 1000) by (nonlinear_arith)
            requires
                sub_nanos == dur@ % 1_000_000_000,
        ;
        let extra: u128 = if sub_nanos % NANOS_PER_MICRO != 0 {
            1
        } else {
            0
        };
        assert(micros < u128::MAX) by {
            assert(max_duration_nanos() / 1000 < u128::MAX);
        }
        let total = micros + extra;
        SleepPlan { remaining: total, total: Ghost(total as nat) }
    }

    /// The next delay to ask the kernel for, or `None` once the sleep is over: the rest of the
    /// sleep, or `u32::MAX` microseconds if the rest is longer.
    pub fn next_delay(&self) -> (r: Option<u32>)
        ensures
            r is None <==> self.remaining() == 0,
            r matches Some(chunk) ==> chunk as nat == (if self.remaining() <= u32::MAX as nat {
                self.remaining()
            } else {
                u32::MAX as nat
            }),
    {
        if self.remaining == 0 {
            None
        } else if self.remaining <= u32::MAX as u128 {
            Some(self.remaining as u32)
        } else {
            Some(u32::MAX)
        }
    }

    /// Takes the kernel's answer to a delay of `chunk` microseconds: a delay that succeeded
    /// counts towards the sleep, a refused one does not.
    pub fn record(&mut self, chunk: u32, res: &SceResult<()>)
        requires
            chunk as nat <= old(self).remaining(),
        ensures
            final(self).total() == old(self).total(),
            res.spec_is_ok() ==> final(self).remaining() == old(self).remaining() - chunk,
            !res.spec_is_ok() ==> final(self).remaining() == old(self).remaining(),
    {
        proof {
            use_type_invariant(&*self);
        }
        if res.is_ok() {
            self.remaining = self.remaining - chunk as u128;
        }
    }
}

} // verus!
