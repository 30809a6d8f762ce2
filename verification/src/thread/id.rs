//! Unique identifiers of the threads of a process.
use vstd::prelude::*;

verus! {

/// A unique identifier for a running thread.
///
/// A `ThreadId` is an opaque object that uniquely identifies each thread created during the
/// lifetime of a process. `ThreadId`s are guaranteed not to be reused, even when a thread
/// terminates: they are drawn from a counter that only counts up. There may not be any
/// relationship between `ThreadId` and the underlying platform's notion of a thread
/// identifier.
#[derive(Eq, PartialEq, Structural, Clone, Copy, Hash, Debug)]
pub struct ThreadId(u64);

impl ThreadId {
    #[verifier::type_invariant]
    spec fn inv(self) -> bool {
        self.0 != 0
    }

    /// The number of the identifier.
    pub closed spec fn value(self) -> u64 {
        self.0
    }

    /// The identifier that follows the last one handed out, given the counter value `last`
    /// (0 before the first identifier). Its number is also the new counter value. `None` when
    /// the counter is exhausted.
    pub fn next_after(last: u64) -> (r: Option<ThreadId>)
        ensures
            r is Some <==> last < u64::MAX,
            r matches Some(id) ==> id.value() == last + 1,
    {
        match last.checked_add(1) {
            Some(id) => Some(ThreadId(id)),
            None => None,
        }
    }

    /// Draws a new identifier from the identifier counter `counter`, the number of the last
    /// identifier handed out (0 before the first): the counter moves on by one and the new
    /// identifier has its new value.
    ///
    /// The counter must not be exhausted (the caller panics with "failed to generate unique
    /// thread ID: bitspace exhausted" when it is, leaving it as it is), and it must not change
    /// meanwhile: the caller holds it for the whole call.
    pub fn new(counter: &mut u64) -> (r: ThreadId)
        requires
            *old(counter) < u64::MAX,
        ensures
            r.value() == *old(counter) + 1,
            *final(counter) == r.value(),
    {
        let id = ThreadId(*counter + 1);
        *counter = *counter + 1;
        id
    }

    /// The identifier with number `v`, or `None` for 0.
    pub fn from_u64(v: u64) -> (r: Option<ThreadId>)
        ensures
            r is Some <==> v != 0,
            r matches Some(id) ==> id.value() == v,
    {
        if v != 0 {
            Some(ThreadId(v))
        } else {
            None
        }
    }

    /// This returns a numeric identifier for the thread identified by this `ThreadId`; it is
    /// never 0.
    pub fn as_u64(&self) -> (r: u64)
        ensures
            r == self.value(),
            r != 0,
    {
        proof {
            use_type_invariant(self);
        }
        self.0
    }
}

/// Two identifiers are the same identifier exactly when their numbers are equal.
pub proof fn lemma_value_injective(a: ThreadId, b: ThreadId)
    ensures
        a == b <==> a.value() == b.value(),
{
}

/// Identifiers drawn one after the other from the counter are all different: each one is
/// larger than every one before it.
pub proof fn lemma_next_ids_increase(last: u64, first: ThreadId, second: ThreadId)
    requires
        last < u64::MAX,
        first.value() == last + 1,
        first.value() < u64::MAX,
        second.value() == first.value() + 1,
    ensures
        first.value() > last,
        second.value() > first.value(),
        first != second,
{
}

} // verus!
