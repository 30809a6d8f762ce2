//! The decisions of the raw mutexes built on the kernel synchronisation objects.
//!
//! A kernel-backed mutex keeps the identifier of its kernel object in one atomic word,
//! the *slot*, and creates the object the first time it is needed. The slot holds
//! [`UNINIT`] until some thread claims it by swapping in [`INITIALIZING`]; that thread
//! creates the kernel object and publishes its identifier, or puts [`UNINIT`] back when
//! the creation fails. Every other thread that finds the slot being initialised waits a
//! round and looks again. A lookup gives up after [`ID_LOOKUP_ROUNDS`] rounds.
//!
//! [`IdLookup`] is that protocol as a state machine: the caller performs each
//! [`LookupStep`] (an atomic load, a compare-and-exchange, the kernel call that creates
//! the object, or a wait) and reports what came of it.
use core::sync::atomic::AtomicBool;
use core::sync::atomic::Ordering;
use vstd::prelude::*;

use crate::sys::result::SceResult;
use crate::sys::{SceError, SCE_OK_MAX};
use crate::time::{Duration, NANOS_PER_MICRO};

verus! {

broadcast use crate::sys::group_sce_words;

/// The slot word of a mutex whose kernel object does not exist yet.
pub const UNINIT: u32 = 0xFFFF_FFFF;

/// The slot word of a mutex whose kernel object is being created by some thread.
pub const INITIALIZING: u32 = 0xFFFF_FFFE;

/// How many rounds an identifier lookup makes before it gives up.
pub const ID_LOOKUP_ROUNDS: u32 = 0x10;

/// The slot words that the protocol ever stores: the two markers and kernel identifiers.
pub open spec fn slot_word_wf(word: u32) -> bool {
    word == UNINIT || word == INITIALIZING || word <= SCE_OK_MAX
}

/// What a slot word says about the kernel object of a mutex.
#[derive(Clone, Copy, PartialEq, Eq, Structural, Debug)]
pub enum SlotState {
    /// No kernel object exists yet.
    Uninit,
    /// Some thread is creating the kernel object.
    Initializing,
    /// The kernel object exists; the word is what its creator published.
    Assigned(u32),
}

/// What the slot word `word` says.
pub open spec fn spec_read_slot(word: u32) -> SlotState {
    if word == UNINIT {
        SlotState::Uninit
    } else if word == INITIALIZING {
        SlotState::Initializing
    } else {
        SlotState::Assigned(word)
    }
}

/// Reads a slot word.
pub fn read_slot(word: u32) -> (r: SlotState)
    ensures
        r == spec_read_slot(word),
{
    if word == UNINIT {
        SlotState::Uninit
    } else if word == INITIALIZING {
        SlotState::Initializing
    } else {
        SlotState::Assigned(word)
    }
}

/// The next thing an identifier lookup needs done.
#[derive(Clone, Copy, PartialEq, Eq, Structural, Debug)]
pub enum LookupStep {
    /// Load the slot word and report it with [`IdLookup::on_loaded`].
    Load,
    /// Compare-and-exchange the slot from [`UNINIT`] to [`INITIALIZING`] and report whether
    /// it succeeded with [`IdLookup::on_claimed`].
    Claim,
    /// Create the kernel object and report the outcome with [`IdLookup::on_created`].
    Create,
    /// Wait one round (see [`crate::sys::spin_loop`]) and report it with
    /// [`IdLookup::on_waited`].
    Wait,
    /// The lookup is over: the slot holds this word.
    Found(u32),
    /// The lookup is over without an identifier: every round was used up.
    Exhausted,
}

/// An identifier lookup in progress: the state of the lazy-initialisation protocol.
#[derive(Clone, Copy, PartialEq, Eq, Structural, Debug)]
pub struct IdLookup {
    rounds: u32,
}

/// What starting a new round does: it loads the slot if rounds are left, and otherwise ends
/// the lookup.
pub open spec fn next_round_spec(rounds: u32, new_rounds: u32, step: LookupStep) -> bool {
    if rounds < ID_LOOKUP_ROUNDS {
        new_rounds == rounds + 1 && step == LookupStep::Load
    } else {
        new_rounds == rounds && step == LookupStep::Exhausted
    }
}

impl IdLookup {
    #[verifier::type_invariant]
    spec fn inv(self) -> bool {
        self.rounds <= ID_LOOKUP_ROUNDS
    }

    /// The number of rounds the lookup has started.
    pub closed spec fn rounds(self) -> u32 {
        self.rounds
    }

    /// Starts a lookup; its first step is to load the slot.
    pub fn new() -> (r: (IdLookup, LookupStep))
        ensures
            r.0.rounds() == 1,
            r.1 == LookupStep::Load,
    {
        (IdLookup { rounds: 1 }, LookupStep::Load)
    }

    /// Starts the next round, or ends the lookup when no round is left.
    fn next_round(&mut self) -> (r: LookupStep)
        ensures
            next_round_spec(old(self).rounds(), final(self).rounds(), r),
            final(self).rounds() <= ID_LOOKUP_ROUNDS,
    {
        proof {
            use_type_invariant(&*self);
        }
        if self.rounds < ID_LOOKUP_ROUNDS {
            self.rounds = self.rounds + 1;
            LookupStep::Load
        } else {
            LookupStep::Exhausted
        }
    }

    /// Takes the slot word that was loaded: an unset slot is to be claimed, a slot being
    /// initialised is waited on, and a set slot ends the lookup with its word.
    pub fn on_loaded(&mut self, word: u32) -> (r: LookupStep)
        ensures
            final(self).rounds() == old(self).rounds(),
            r == match spec_read_slot(word) {
                SlotState::Uninit => LookupStep::Claim,
                SlotState::Initializing => LookupStep::Wait,
                SlotState::Assigned(w) => LookupStep::Found(w),
            },
    {
        match read_slot(word) {
            SlotState::Uninit => LookupStep::Claim,
            SlotState::Initializing => LookupStep::Wait,
            SlotState::Assigned(w) => LookupStep::Found(w),
        }
    }

    /// Takes the outcome of the attempt to claim the slot: the thread that claimed it creates
    /// the kernel object, every other one starts the next round.
    pub fn on_claimed(&mut self, claimed: bool) -> (r: LookupStep)
        ensures
            claimed ==> final(self).rounds() == old(self).rounds() && r == LookupStep::Create,
            !claimed ==> next_round_spec(old(self).rounds(), final(self).rounds(), r),
    {
        if claimed {
            LookupStep::Create
        } else {
            self.next_round()
        }
    }

    /// Takes the end of a wait: the next round starts.
    pub fn on_waited(&mut self) -> (r: LookupStep)
        ensures
            next_round_spec(old(self).rounds(), final(self).rounds(), r),
    {
        self.next_round()
    }

    /// Takes the outcome of the creation of the kernel object, as the word to publish on
    /// success. Returns the word to store in the slot and the next step: on success the
    /// published word, which ends the lookup; on failure [`UNINIT`], so that a later round
    /// or another thread can try again.
    pub fn on_created(&mut self, created: Result<u32, SceError>) -> (r: (u32, LookupStep))
        ensures
            created matches Ok(word) ==> final(self).rounds() == old(self).rounds() && r == (
                word,
                LookupStep::Found(word),
            ),
            created is Err ==> r.0 == UNINIT && next_round_spec(
                old(self).rounds(),
                final(self).rounds(),
                r.1,
            ),
    {
        match created {
            Ok(word) => (word, LookupStep::Found(word)),
            Err(_) => {
                let step = self.next_round();
                (UNINIT, step)
            },
        }
    }
}

/// How far a step is from the end of its round, for the termination of a lookup.
spec fn step_rank(step: LookupStep) -> int {
    match step {
        LookupStep::Load => 3,
        LookupStep::Claim => 2,
        LookupStep::Wait => 2,
        LookupStep::Create => 1,
        LookupStep::Found(_) => 0,
        LookupStep::Exhausted => 0,
    }
}

/// Where a found word came from: the slot held it, or this thread won the claim on the slot,
/// created the kernel object with it and published it.
pub open spec fn found_word_origin<
    Ld: Fn() -> u32,
    Cl: Fn() -> bool,
    Cr: Fn() -> Result<u32, SceError>,
    Pu: Fn(u32),
>(load: Ld, claim: Cl, create: Cr, publish: Pu, word: u32) -> bool {
    ||| (load.ensures((), word) && spec_read_slot(word) is Assigned)
    ||| (claim.ensures((), true) && create.ensures((), Ok::<u32, SceError>(word))
        && publish.ensures((word,), ()))
}

/// A word that a lookup stores in the slot after its claim: the word `create` gave, or
/// [`UNINIT`] after a creation that failed.
pub open spec fn published_word_origin<Cr: Fn() -> Result<u32, SceError>>(
    create: Cr,
    word: u32,
) -> bool {
    ||| (word == UNINIT && exists|e: SceError| create.ensures((), Err::<u32, SceError>(e)))
    ||| create.ensures((), Ok::<u32, SceError>(word))
}

/// How many of the loaded slot words say that another thread is creating the object.
pub open spec fn initializing_loads(loaded: Seq<u32>) -> nat
    decreases loaded.len(),
{
    if loaded.len() == 0 {
        0
    } else {
        initializing_loads(loaded.drop_last()) + (if loaded.last() == INITIALIZING {
            1nat
        } else {
            0nat
        })
    }
}

/// The record of a lookup's run: the slot words it loaded, in order, how many of its claims
/// succeeded, the words it published, in order, and how many rounds it waited.
pub struct LookupRecord {
    /// The slot words loaded, in order.
    pub loaded: Seq<u32>,
    /// The number of claims that succeeded.
    pub claims_won: nat,
    /// The words published, in order.
    pub published: Seq<u32>,
    /// The number of rounds waited.
    pub waits: nat,
}

/// Every word that `load` can give is a published one: the kernel object already exists.
pub open spec fn slot_always_assigned<Ld: Fn() -> u32>(load: Ld) -> bool {
    forall|w: u32| load.ensures((), w) ==> (#[trigger] spec_read_slot(w)) is Assigned
}

/// The slot is unset, every claim succeeds and every creation succeeds.
pub open spec fn creation_always_succeeds<
    Ld: Fn() -> u32,
    Cl: Fn() -> bool,
    Cr: Fn() -> Result<u32, SceError>,
>(load: Ld, claim: Cl, create: Cr) -> bool {
    &&& forall|w: u32| load.ensures((), w) ==> w == UNINIT
    &&& forall|b: bool| claim.ensures((), b) ==> b
    &&& forall|c: Result<u32, SceError>| create.ensures((), c) ==> c is Ok
}

/// Runs an identifier lookup to its end: `load` loads the slot word, `claim` tries to swap
/// the slot from [`UNINIT`] to [`INITIALIZING`] and says whether it did, `create` creates the
/// kernel object and gives the word to publish, `publish` stores a word in the slot and
/// `wait` waits one round.
///
/// Returns the word of the kernel object, which the slot held or which this thread created
/// after winning the claim, or `None` when every round was used up. The lookup succeeds
/// whenever the slot is already set, and whenever the object can be created at the first try.
///
/// Beside it, as a ghost value, the record of the run, each entry of which is what one call of
/// a closure gave or was given: the slot is loaded at least once and at most
/// [`ID_LOOKUP_ROUNDS`] times, exactly that often when the lookup gives up; each successful
/// claim is followed by one publication, of a word that `create` gave or of [`UNINIT`] after
/// a failed creation, so that the slot leaves [`INITIALIZING`] again; and the lookup waits one
/// round for every load that found the object being created by another thread.
pub fn lookup_id<
    Ld: Fn() -> u32,
    Cl: Fn() -> bool,
    Cr: Fn() -> Result<u32, SceError>,
    Pu: Fn(u32),
    Wt: Fn(),
>(load: Ld, claim: Cl, create: Cr, publish: Pu, wait: Wt) -> (r: (
    Option<u32>,
    Ghost<LookupRecord>,
))
    requires
        load.requires(()),
        claim.requires(()),
        create.requires(()),
        wait.requires(()),
        forall|w: u32| publish.requires((w,)),
    ensures
        r.0 matches Some(w) ==> found_word_origin(load, claim, create, publish, w),
        1 <= r.1@.loaded.len() <= ID_LOOKUP_ROUNDS,
        r.0 is None ==> r.1@.loaded.len() == ID_LOOKUP_ROUNDS,
        forall|i: int| 0 <= i < r.1@.loaded.len() ==> load.ensures((), #[trigger] r.1@.loaded[i]),
        r.1@.claims_won > 0 ==> claim.ensures((), true),
        r.1@.published.len() == r.1@.claims_won,
        forall|i: int|
            0 <= i < r.1@.published.len() ==> publish.ensures((#[trigger] r.1@.published[i],), ())
                && published_word_origin(create, r.1@.published[i]),
        r.1@.waits == initializing_loads(r.1@.loaded),
        r.1@.waits > 0 ==> wait.ensures((), ()),
        slot_always_assigned(load) ==> r.0 is Some,
        creation_always_succeeds(load, claim, create) ==> r.0 is Some,
{
    let (mut lookup, mut step) = IdLookup::new();
    let ghost mut loaded: Seq<u32> = Seq::empty();
    let ghost mut claims_won: nat = 0;
    let ghost mut published: Seq<u32> = Seq::empty();
    let ghost mut waits: nat = 0;
    loop
        invariant
            loaded.len() + (if step == LookupStep::Load {
                1int
            } else {
                0int
            }) == lookup.rounds(),
            load.requires(()),
            claim.requires(()),
            create.requires(()),
            wait.requires(()),
            forall|w: u32| publish.requires((w,)),
            lookup.rounds() <= ID_LOOKUP_ROUNDS,
            step matches LookupStep::Found(w) ==> found_word_origin(
                load,
                claim,
                create,
                publish,
                w,
            ),
            forall|i: int| 0 <= i < loaded.len() ==> load.ensures((), #[trigger] loaded[i]),
            step == LookupStep::Create ==> claim.ensures((), true),
            claims_won > 0 ==> claim.ensures((), true),
            forall|i: int|
                0 <= i < published.len() ==> publish.ensures((#[trigger] published[i],), ())
                    && published_word_origin(create, published[i]),
            claims_won == published.len() + (if step == LookupStep::Create {
                1nat
            } else {
                0nat
            }),
            waits + (if step == LookupStep::Wait {
                1nat
            } else {
                0nat
            }) == initializing_loads(loaded),
            waits > 0 ==> wait.ensures((), ()),
            step != LookupStep::Load ==> loaded.len() >= 1,
            step == LookupStep::Exhausted ==> lookup.rounds() == ID_LOOKUP_ROUNDS,
            slot_always_assigned(load) ==> (step == LookupStep::Load || step is Found),
            creation_always_succeeds(load, claim, create) ==> (step == LookupStep::Load || step
                == LookupStep::Claim || step == LookupStep::Create || step is Found),
        decreases (ID_LOOKUP_ROUNDS - lookup.rounds()) * 4 + step_rank(step),
    {
        proof {
            use_type_invariant(&lookup);
        }
        match step {
            LookupStep::Load => {
                let word = load();
                proof {
                    let before = loaded;
                    loaded = loaded.push(word);
                    assert(loaded.drop_last() =~= before);
                }
                step = lookup.on_loaded(word);
            },
            LookupStep::Claim => {
                let claimed = claim();
                proof {
                    if claimed {
                        claims_won = claims_won + 1;
                    }
                }
                step = lookup.on_claimed(claimed);
            },
            LookupStep::Create => {
                let created = create();
                let (word, next) = lookup.on_created(created);
                publish(word);
                proof {
                    published = published.push(word);
                    if let Err(e) = created {
                        assert(create.ensures((), Err::<u32, SceError>(e)));
                    }
                }
                step = next;
            },
            LookupStep::Wait => {
                wait();
                proof {
                    waits = waits + 1;
                }
                step = lookup.on_waited();
            },
            LookupStep::Found(word) => {
                let ghost record = LookupRecord { loaded, claims_won, published, waits };
                return (Some(word), Ghost(record));
            },
            LookupStep::Exhausted => {
                let ghost record = LookupRecord { loaded, claims_won, published, waits };
                return (None, Ghost(record));
            },
        }
    }
}

/// A lookup never starts more than [`ID_LOOKUP_ROUNDS`] rounds: a step that starts a round
/// leaves the count at most at that bound, and once the bound is reached the lookup ends.
pub proof fn lemma_lookup_bounded(rounds: u32, new_rounds: u32, step: LookupStep)
    requires
        rounds <= ID_LOOKUP_ROUNDS,
        next_round_spec(rounds, new_rounds, step),
    ensures
        new_rounds <= ID_LOOKUP_ROUNDS,
        step == LookupStep::Load ==> new_rounds == rounds + 1,
        rounds == ID_LOOKUP_ROUNDS ==> step == LookupStep::Exhausted,
{
}

/// The changes of the slot word that the protocol makes: a claim turns [`UNINIT`] into
/// [`INITIALIZING`], and the claiming thread then publishes an identifier or puts [`UNINIT`]
/// back. Nothing changes a published identifier.
pub open spec fn slot_transition(from: u32, to: u32) -> bool {
    ||| (from == UNINIT && to == INITIALIZING)
    ||| (from == INITIALIZING && (to == UNINIT || to <= SCE_OK_MAX))
}

/// When `create` only gives identifier words, every word a lookup publishes after its claim
/// is a change the protocol allows from [`INITIALIZING`] and a slot word it stores, and an
/// identifier, once published, is never changed.
pub proof fn lemma_published_words_follow_protocol<Cr: Fn() -> Result<u32, SceError>>(
    create: Cr,
    word: u32,
    to: u32,
)
    requires
        forall|w: u32| create.ensures((), Ok::<u32, SceError>(w)) ==> w <= SCE_OK_MAX,
        published_word_origin(create, word),
    ensures
        slot_transition(UNINIT, INITIALIZING),
        slot_transition(INITIALIZING, word),
        slot_word_wf(word),
        word <= SCE_OK_MAX ==> !slot_transition(word, to),
{
}

/// A lookup that finds a word found a word that the protocol stores as an identifier,
/// provided that the slot only ever holds words that the protocol stores.
pub proof fn lemma_found_is_identifier(word: u32)
    requires
        slot_word_wf(word),
        spec_read_slot(word) is Assigned,
    ensures
        word <= SCE_OK_MAX,
{
}

/// The longest wait, in microseconds, that the kernel is asked for when a lock attempt has
/// the given timeout: the timeout in whole microseconds, or `u32::MAX` when that does not fit.
pub fn timeout_micros(timeout: &Duration) -> (r: u32)
    ensures
        r as nat == (if timeout@ / (NANOS_PER_MICRO as nat) <= u32::MAX as nat {
            timeout@ / (NANOS_PER_MICRO as nat)
        } else {
            u32::MAX as nat
        }),
{
    let micros = timeout.as_micros();
    if micros <= u32::MAX as u128 {
        micros as u32
    } else {
        u32::MAX
    }
}

/// What a lock attempt does.
#[derive(Clone, Copy, PartialEq, Eq, Structural, Debug)]
pub enum LockAttempt {
    /// The kernel object could not be created: the attempt fails.
    NoObject,
    /// Interrupts are disabled, so the thread cannot block in the kernel.
    InterruptsDisabled,
    /// Ask the kernel to lock the object with this identifier word.
    Kernel(u32),
}

/// Plans a lock attempt from the outcome of the identifier lookup and the interrupt status
/// word.
pub fn plan_lock(id: Option<u32>, interrupt_status: u32) -> (r: LockAttempt)
    ensures
        r == match id {
            None => LockAttempt::NoObject,
            Some(w) => if interrupt_status != 0 {
                LockAttempt::Kernel(w)
            } else {
                LockAttempt::InterruptsDisabled
            },
        },
{
    match id {
        None => LockAttempt::NoObject,
        Some(w) => if crate::sys::is_interrupt_enabled(interrupt_status) {
            LockAttempt::Kernel(w)
        } else {
            LockAttempt::InterruptsDisabled
        },
    }
}

/// Whether the kernel reports the lock as taken: any successful result word, and nothing
/// else (a timeout, or any other error, means the lock was not taken).
pub fn lock_taken(res: SceResult<()>) -> (r: bool)
    ensures
        r == res.spec_into_result() is Ok,
        r == (res.raw() == 0),
{
    match res.into_result() {
        Ok(_) => true,
        Err(_) => false,
    }
}

/// The outcome of a non-blocking or timed lock attempt: the lock is held only when the
/// kernel was asked and took it.
pub fn attempt_succeeded(plan: LockAttempt, kernel_result: SceResult<()>) -> (r: bool)
    ensures
        r == (plan is Kernel && kernel_result.raw() == 0),
{
    match plan {
        LockAttempt::Kernel(_) => lock_taken(kernel_result),
        _ => false,
    }
}

/// The outcome of a non-blocking lock attempt, given the kernel's answer, or `None` when
/// there was no kernel object to ask: the lock is held only when the kernel took it.
pub fn try_lock_succeeded(answer: Option<SceResult<()>>) -> (r: bool)
    ensures
        r == (answer matches Some(res) && res.raw() == 0),
{
    match answer {
        Some(res) => lock_taken(res),
        None => false,
    }
}

/// A raw spin lock on an atomic flag.
///
/// The flag lives in an atomic and other threads change it at any time, so no clause below
/// states what a call finds in it.
pub struct SpinMutex {
    locked: AtomicBool,
}

impl SpinMutex {
    /// An unlocked spin lock.
    pub fn new() -> (r: SpinMutex) {
        SpinMutex { locked: AtomicBool::new(false) }
    }

    /// Takes the lock if it is free, in one compare-and-exchange; returns whether it did.
    pub fn try_lock(&self) -> (r: bool) {
        let res = self.locked.compare_exchange(false, true, Ordering::Acquire, Ordering::Relaxed);
        res.is_ok()
    }

    /// Releases the lock.
    pub fn unlock(&self) {
        self.locked.store(false, Ordering::Release);
    }
}

} // verus!
