//! The two-handle spin lock of the `bilock` crate, and the calls the channel makes on it.
//!
//! Both handles of a pair share one value. What a handle finds when it takes the
//! lock depends on what the other handle did before, so no clause here claims
//! anything about the value behind the lock after the pair was made; each handle
//! only records, as a ghost value, what the pair was made with.

use vstd::prelude::*;

verus! {

#[verifier::external_type_specification]
#[verifier::external_body]
#[verifier::reject_recursive_types(T)]
pub struct ExBilock<T>(bilock::Bilock<T>);

#[verifier::external_type_specification]
#[verifier::external_body]
#[verifier::reject_recursive_types(T)]
pub struct ExGuard<'a, T>(bilock::Guard<'a, T>);

/// One handle of a lock pair. Beside the lock it records, as ghost values, the
/// pair it belongs to, the value the pair was made with, and how many times this
/// handle has taken the lock.
#[verifier::reject_recursive_types(T)]
pub struct LockHandle<T> {
    lock: bilock::Bilock<T>,
    id: Ghost<int>,
    visits: Ghost<nat>,
    initial: Ghost<T>,
}

impl<T> LockHandle<T> {
    /// The pair that this handle belongs to.
    pub closed spec fn id(&self) -> int {
        self.id@
    }

    /// How many times this handle has taken the lock.
    pub closed spec fn visits(&self) -> nat {
        self.visits@
    }

    /// The value that the pair was made with.
    pub closed spec fn initial_value(&self) -> T {
        self.initial@
    }
}

/// A held lock: the guard, and as ghost values the pair it belongs to, which
/// visit of its handle it is, the value found when the lock was taken, and the
/// value behind the lock now.
#[verifier::reject_recursive_types(T)]
pub struct LockGuard<'a, T> {
    guard: bilock::Guard<'a, T>,
    id: Ghost<int>,
    visit: Ghost<nat>,
    found: Ghost<T>,
    content: Ghost<T>,
}

impl<'a, T> LockGuard<'a, T> {
    /// The pair whose lock is held.
    pub closed spec fn id(&self) -> int {
        self.id@
    }

    /// Which visit of its handle this is.
    pub closed spec fn visit(&self) -> nat {
        self.visit@
    }

    /// The value found behind the lock when it was taken.
    pub closed spec fn found(&self) -> T {
        self.found@
    }

    /// The value behind the lock now.
    pub closed spec fn content(&self) -> T {
        self.content@
    }
}

/// The record of one finished visit: the pair, which visit of its handle it was,
/// the value found when the lock was taken, and the value left when it was
/// released. Only releasing a lock makes one.
#[verifier::reject_recursive_types(T)]
pub struct Visit<T> {
    id: Ghost<int>,
    visit: Ghost<nat>,
    found: Ghost<T>,
    left: Ghost<T>,
}

impl<T> Visit<T> {
    /// The pair whose lock was held.
    pub closed spec fn id(&self) -> int {
        self.id@
    }

    /// Which visit of its handle this was.
    pub closed spec fn visit(&self) -> nat {
        self.visit@
    }

    /// The value found when the lock was taken.
    pub closed spec fn found(&self) -> T {
        self.found@
    }

    /// The value left when the lock was released.
    pub closed spec fn left(&self) -> T {
        self.left@
    }
}

/// Calls `Bilock::new`, which places `value` behind one new lock shared by the
/// two handles it returns. Claimed: both handles belong to one pair, were made
/// with `value`, and have not taken the lock yet. Nothing is claimed of what
/// either handle finds behind the lock later.
#[verifier::external_body]
pub(crate) fn new_pair<T>(value: T) -> (pair: (LockHandle<T>, LockHandle<T>))
    ensures
        pair.0.id() == pair.1.id(),
        pair.0.initial_value() == value,
        pair.1.initial_value() == value,
        pair.0.visits() == 0,
        pair.1.visits() == 0,
{
    let initial = Ghost(value);
    let (left, right) = bilock::Bilock::new(value);
    let id = Ghost(0int);
    let visits = Ghost(0nat);
    (LockHandle { lock: left, id, visits, initial }, LockHandle { lock: right, id, visits, initial })
}

/// Calls `Bilock::lock`, which spins until the lock is free and then holds it.
/// It does not return while the paired handle holds the lock; the channel never
/// holds both at once. Claimed of the ghost records only: this is the handle's
/// next visit, and the value behind the lock is what was found there. Nothing is
/// claimed of which value that is.
#[verifier::external_body]
pub(crate) fn lock<T>(handle: &mut LockHandle<T>) -> (guard: LockGuard<'_, T>)
    ensures
        final(handle).id() == old(handle).id(),
        final(handle).initial_value() == old(handle).initial_value(),
        final(handle).visits() == old(handle).visits() + 1,
        guard.id() == old(handle).id(),
        guard.visit() == old(handle).visits() + 1,
        guard.content() == guard.found(),
{
    handle.visits = Ghost(handle.visits@ + 1);
    let visit = handle.visits;
    let found = Ghost(arbitrary());
    LockGuard { guard: handle.lock.lock(), id: handle.id, visit, found, content: found }
}

/// Calls `Bilock::try_lock`, which returns a guard if the lock was free at that
/// moment and `None` otherwise. Which of the two comes back depends on the other
/// handle's timing, so nothing is claimed of it. Claimed of the ghost records
/// only: `None` leaves the handle as it was; a guard is the handle's next visit,
/// as with [`lock`].
#[verifier::external_body]
pub(crate) fn try_lock<T>(handle: &mut LockHandle<T>) -> (guard: Option<LockGuard<'_, T>>)
    ensures
        final(handle).id() == old(handle).id(),
        final(handle).initial_value() == old(handle).initial_value(),
        guard is None ==> final(handle).visits() == old(handle).visits(),
        guard matches Some(g) ==> {
            &&& final(handle).visits() == old(handle).visits() + 1
            &&& g.id() == old(handle).id()
            &&& g.visit() == old(handle).visits() + 1
            &&& g.content() == g.found()
        },
{
    let next = Ghost(handle.visits@ + 1);
    let id = handle.id;
    let visits = &mut handle.visits;
    match handle.lock.try_lock() {
        Some(guard) => {
            *visits = next;
            let found = Ghost(arbitrary());
            Some(LockGuard { guard, id, visit: next, found, content: found })
        },
        None => None,
    }
}

/// Calls `DerefMut::deref_mut` on a guard, which lends the value behind the lock
/// while it is held. Claimed of the ghost records only: the value lent is the
/// value behind the lock, and what it is when the loan ends is what is behind
/// the lock afterwards.
#[verifier::external_body]
pub(crate) fn guarded<'b, 'a, T>(guard: &'b mut LockGuard<'a, T>) -> (value: &'b mut T)
    ensures
        *value == old(guard).content(),
        final(guard).content() == *final(value),
        final(guard).found() == old(guard).found(),
        final(guard).id() == old(guard).id(),
        final(guard).visit() == old(guard).visit(),
{
    &mut *guard.guard
}

/// Calls `Guard::unlock`, which releases the lock. Returns the record of the
/// visit: what was found behind the lock, and what was left there.
#[verifier::external_body]
pub(crate) fn unlock<T>(guard: LockGuard<'_, T>) -> (record: Visit<T>)
    ensures
        record.id() == guard.id(),
        record.visit() == guard.visit(),
        record.found() == guard.found(),
        record.left() == guard.content(),
{
    let record = Visit { id: guard.id, visit: guard.visit, found: guard.found, left: guard.content };
    bilock::Guard::unlock(guard.guard);
    record
}

} // verus!
