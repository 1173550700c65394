//! The multi-thread container: `Arc<RwLock<T>>` with a pinned mutable view.
use std::pin::Pin;
use std::sync::{Arc, RwLock, RwLockReadGuard, RwLockWriteGuard};
use crate::{pin_calls_are_named, pin_new, pins};
use vstd::prelude::*;

verus! {

/// `std::sync::RwLock`. To Verus a lock is its identity, never its contents:
/// two locks are equal exactly when they are the same lock.
#[verifier::external_type_specification]
#[verifier::external_body]
#[verifier::reject_recursive_types(T)]
pub struct ExRwLock<T: ?Sized>(RwLock<T>);

/// `std::sync::RwLockReadGuard`, the guard of shared access.
#[verifier::external_type_specification]
#[verifier::external_body]
#[verifier::reject_recursive_types(T)]
pub struct ExRwLockReadGuard<'a, T: ?Sized>(RwLockReadGuard<'a, T>);

/// `std::sync::RwLockWriteGuard`, the guard of exclusive access.
#[verifier::external_type_specification]
#[verifier::external_body]
#[verifier::reject_recursive_types(T)]
pub struct ExRwLockWriteGuard<'a, T: ?Sized + 'a>(RwLockWriteGuard<'a, T>);

/// A strong handle to a value that is shared between threads, counted and
/// never moved.
#[derive(Default, Debug)]
#[verifier::reject_recursive_types(T)]
pub struct PinArc<T: ?Sized> {
    inner: Arc<RwLock<T>>,
}

/// A handle that observes an allocation without keeping its value alive.
///
/// `std::sync::Weak` cannot be declared to Verus, so the whole struct is
/// opaque to it: a weak handle is made, copied and upgraded by the standard
/// library alone.
#[derive(Debug)]
#[verifier::external_body]
#[verifier::reject_recursive_types(T)]
pub struct PinWeak<T: ?Sized> {
    inner: std::sync::Weak<RwLock<T>>,
}

/// The guard of shared access: while it lives, nobody writes.
#[derive(Debug)]
#[verifier::reject_recursive_types(T)]
pub struct PinRwLockReadGuard<'a, T: ?Sized + 'a> {
    inner: RwLockReadGuard<'a, T>,
}

/// The guard of exclusive access, and the only source of a pinned mutable view.
#[derive(Debug)]
#[verifier::reject_recursive_types(T)]
pub struct PinRwLockWriteGuard<'a, T: ?Sized + 'a> {
    inner: RwLockWriteGuard<'a, T>,
}

/// Access was granted, but an earlier exclusive holder panicked with its
/// guard in hand: the value may be half-written. The guard is here all the
/// same, for a caller that knows how to go on.
#[derive(Debug)]
pub struct PoisonError<G> {
    guard: G,
}

/// Why a request that does not wait came back without clean access.
#[derive(Debug)]
pub enum TryLockError<G> {
    /// Access was granted on a poisoned lock.
    Poisoned(PoisonError<G>),
    /// The lock is held in a way that excludes the request; no access.
    WouldBlock,
}

/// What a request that waits comes to.
pub type LockResult<G> = Result<G, PoisonError<G>>;

/// What a request that does not wait comes to.
pub type TryLockResult<G> = Result<G, TryLockError<G>>;

impl<G> View for PoisonError<G> {
    type V = G;

    /// The guard that came with the poison.
    closed spec fn view(&self) -> G {
        self.guard
    }
}

impl<G> PoisonError<G> {
    /// Marks `guard` as taken from a poisoned lock.
    pub fn new(guard: G) -> (e: Self)
        ensures
            e@ == guard,
    {
        PoisonError { guard }
    }

    /// Accepts the poison and takes the guard.
    pub fn into_inner(self) -> (guard: G)
        ensures
            guard == self@,
    {
        self.guard
    }

    /// The guard, to read through.
    pub fn get_ref(&self) -> (guard: &G)
        ensures
            *guard == self@,
    {
        &self.guard
    }

    /// The guard, to write through.
    pub fn get_mut(&mut self) -> (guard: &mut G)
        ensures
            *guard == old(self)@,
            final(self)@ == *final(guard),
    {
        &mut self.guard
    }
}

impl<T> PinArc<T> {
    /// Whether the lock of this handle is one that `RwLock::new` makes from
    /// `data`. This tells where the lock comes from, not what it holds now.
    pub closed spec fn made_from(&self, data: T) -> bool {
        call_ensures(lock_new::<T>, (data,), *self.inner)
    }

    /// Allocates on the heap, moves `data` in, and pins it there.
    pub fn new(data: T) -> (arc: PinArc<T>)
        ensures
            arc.made_from(data),
    {
        PinArc { inner: Arc::new(lock_new(data)) }
    }
}

impl<T: Unpin + ?Sized> PinArc<T> {
    /// Gives up the pin and returns the counted lock itself. Only a value
    /// that may be moved can leave this way.
    pub fn safe_unpin(this: PinArc<T>) -> (arc: Arc<RwLock<T>>)
        ensures
            arc == this.allocation(),
    {
        this.inner
    }

    /// Lends the lock of this allocation, for a caller that wants to wait on
    /// it. A wait may never end, so none is made here; what a wait comes to
    /// is handed on by [`PinRwLockReadGuard::from_read`] and
    /// [`PinRwLockWriteGuard::from_write`]. Only the lock of a value that may
    /// be moved is lent.
    pub fn rwlock(this: &Self) -> (lock: &RwLock<T>)
        ensures
            lock == &*this.allocation(),
    {
        &*this.inner
    }
}

impl<T: ?Sized> PinArc<T> {
    /// The allocation this handle points to. A lock being its identity, two
    /// handles share an allocation exactly when these are equal.
    pub closed spec fn allocation(&self) -> Arc<RwLock<T>> {
        self.inner
    }

    /// Whether `n` is a number that `Arc::strong_count` can report for this
    /// allocation.
    pub closed spec fn reports_strong(&self, n: usize) -> bool {
        call_ensures(arc_strong_count::<T>, (&self.inner,), n)
    }

    /// Whether `n` is a number that `Arc::weak_count` can report for this
    /// allocation.
    pub closed spec fn reports_weak(&self, n: usize) -> bool {
        call_ensures(arc_weak_count::<T>, (&self.inner,), n)
    }

    /// Whether `weak` is a handle that `Arc::downgrade` can make for this
    /// allocation.
    pub closed spec fn downgrades_to(&self, weak: PinWeak<T>) -> bool {
        call_ensures(arc_downgrade::<T>, (&self.inner,), weak)
    }

    /// Whether `poisoned` is what `RwLock::is_poisoned` can report for the
    /// lock of this allocation.
    pub closed spec fn reports_poisoned(&self, poisoned: bool) -> bool {
        call_ensures(lock_is_poisoned::<T>, (&*self.inner,), poisoned)
    }

    /// Whether `answer` is what the lock of this allocation can give when
    /// `RwLock::try_read` asks it for shared access.
    pub closed spec fn answers_try_read(
        &self,
        answer: TryLockResult<RwLockReadGuard<'_, T>>,
    ) -> bool {
        call_ensures(lock_try_read::<T>, (&*self.inner,), answer)
    }

    /// Whether `answer` is what the lock of this allocation can give when
    /// `RwLock::try_write` asks it for exclusive access.
    pub closed spec fn answers_try_write(
        &self,
        answer: TryLockResult<RwLockWriteGuard<'_, T>>,
    ) -> bool {
        call_ensures(lock_try_write::<T>, (&*self.inner,), answer)
    }

    /// A weak handle to this allocation. It does not keep the value alive.
    pub fn downgrade(this: &Self) -> (weak: PinWeak<T>)
        ensures
            this.downgrades_to(weak),
    {
        arc_downgrade(&this.inner)
    }

    /// The number of weak handles to this allocation, as it was at some
    /// moment of the call: other threads may change it at any time.
    pub fn weak_count(this: &Self) -> (n: usize)
        ensures
            this.reports_weak(n),
    {
        arc_weak_count(&this.inner)
    }

    /// The number of strong handles to this allocation, this one included, as
    /// it was at some moment of the call.
    pub fn strong_count(this: &Self) -> (n: usize)
        ensures
            this.reports_strong(n),
            n >= 1,
    {
        arc_strong_count(&this.inner)
    }

    /// Whether the two handles point to the same allocation. The values are
    /// not compared.
    pub fn ptr_eq(this: &Self, other: &Self) -> (same: bool)
        ensures
            same == (this.allocation() == other.allocation()),
    {
        arc_ptr_eq(&this.inner, &other.inner)
    }

    /// Asks for shared access without waiting. The answer is handed on by
    /// [`PinRwLockReadGuard::from_try_read`].
    pub fn try_read(&self) -> (r: TryLockResult<PinRwLockReadGuard<'_, T>>)
        ensures
            self.answers_try_read(PinRwLockReadGuard::try_lock_answer(r)),
    {
        let answer = lock_try_read(&self.inner);
        PinRwLockReadGuard::from_try_read(answer)
    }

    /// Asks for exclusive access without waiting. The answer is handed on by
    /// [`PinRwLockWriteGuard::from_try_write`].
    pub fn try_write(&self) -> (r: TryLockResult<PinRwLockWriteGuard<'_, T>>)
        ensures
            self.answers_try_write(PinRwLockWriteGuard::try_lock_answer(r)),
    {
        let answer = lock_try_write(&self.inner);
        PinRwLockWriteGuard::from_try_write(answer)
    }

    /// Whether an exclusive holder has panicked with its guard in hand.
    pub fn is_poisoned(&self) -> (poisoned: bool)
        ensures
            self.reports_poisoned(poisoned),
    {
        lock_is_poisoned(&self.inner)
    }
}

impl<T: ?Sized> Clone for PinArc<T> {
    /// Another handle to the same allocation. The value is not copied.
    fn clone(&self) -> (arc: Self)
        ensures
            arc.allocation() == self.allocation(),
    {
        PinArc { inner: arc_clone(&self.inner) }
    }
}

/// A clone points where its source points: asked of the two, `ptr_eq` can
/// only answer that they share an allocation.
pub proof fn clone_shares_allocation<T: ?Sized>(source: PinArc<T>, copy: PinArc<T>, same: bool)
    requires
        call_ensures(<PinArc<T> as Clone>::clone, (&source,), copy),
        call_ensures(PinArc::<T>::ptr_eq, (&source, &copy), same),
    ensures
        same,
{
}

/// What was downgraded is what comes back: where `upgrade` gives a strong
/// handle for a weak handle that `downgrade` made of `source`, `ptr_eq` can
/// only answer that the two share an allocation.
pub proof fn upgrade_gives_the_source<T: ?Sized>(
    source: PinArc<T>,
    weak: PinWeak<T>,
    strong: PinArc<T>,
    same: bool,
)
    requires
        call_ensures(PinArc::<T>::downgrade, (&source,), weak),
        call_ensures(PinWeak::<T>::upgrade, (&weak,), Some(strong)),
        call_ensures(PinArc::<T>::ptr_eq, (&source, &strong), same),
    ensures
        same,
{
}

/// A weak handle to nothing never upgrades: for a handle that `default`
/// made, `upgrade` can only give `None`.
pub proof fn default_weak_never_upgrades<T>(weak: PinWeak<T>, answer: Option<PinArc<T>>)
    requires
        call_ensures(<PinWeak<T> as Default>::default, (), weak),
        call_ensures(PinWeak::<T>::upgrade, (&weak,), answer),
    ensures
        answer is None,
{
}

impl<T> From<T> for PinArc<T> {
    /// The same as [`PinArc::new`].
    fn from(t: T) -> (arc: Self)
        ensures
            arc.made_from(t),
    {
        PinArc::new(t)
    }
}

impl<T> vstd::std_specs::convert::FromSpecImpl<T> for PinArc<T> {
    /// Every call allocates anew, so the handle is no function of the value.
    open spec fn obeys_from_spec() -> bool {
        false
    }

    open spec fn from_spec(t: T) -> Self {
        arbitrary()
    }
}

impl<T: ?Sized> From<Arc<RwLock<T>>> for PinArc<T> {
    /// Takes a counted lock as it is and pins its value from now on.
    fn from(inner: Arc<RwLock<T>>) -> (arc: Self)
        ensures
            arc.allocation() == inner,
    {
        PinArc { inner }
    }
}

impl<T: ?Sized> vstd::std_specs::convert::FromSpecImpl<Arc<RwLock<T>>> for PinArc<T> {
    open spec fn obeys_from_spec() -> bool {
        true
    }

    /// The handle to the very allocation that was handed in.
    closed spec fn from_spec(inner: Arc<RwLock<T>>) -> Self {
        PinArc { inner }
    }
}

impl<'a, T: ?Sized> PinRwLockReadGuard<'a, T> {
    /// The lock guard that this guard holds.
    pub closed spec fn guard(self) -> RwLockReadGuard<'a, T> {
        self.inner
    }

    /// Whether `value` is what the lock guard that this guard holds can show.
    pub closed spec fn shows(&self, value: &T) -> bool {
        call_ensures(read_guard_target::<T>, (&self.inner,), value)
    }

    /// The answer of the lock that `r` hands on: the same answer around the
    /// bare lock guard.
    pub closed spec fn lock_answer(r: LockResult<Self>) -> LockResult<RwLockReadGuard<'a, T>> {
        match r {
            Ok(guard) => Ok(guard.inner),
            Err(poison) => Err(PoisonError { guard: poison.guard.inner }),
        }
    }

    /// The answer of the lock that `r` hands on: the same answer around the
    /// bare lock guard.
    pub closed spec fn try_lock_answer(r: TryLockResult<Self>) -> TryLockResult<
        RwLockReadGuard<'a, T>,
    > {
        match r {
            Ok(guard) => Ok(guard.inner),
            Err(TryLockError::Poisoned(poison)) => Err(
                TryLockError::Poisoned(PoisonError { guard: poison.guard.inner }),
            ),
            Err(TryLockError::WouldBlock) => Err(TryLockError::WouldBlock),
        }
    }

    /// Hands on the answer to a wait for shared access. Access is granted
    /// either way; poison on the lock stays poison on the answer, around the
    /// same lock guard.
    pub fn from_read(outcome: LockResult<RwLockReadGuard<'a, T>>) -> (r: LockResult<Self>)
        ensures
            match outcome {
                Ok(granted) => r matches Ok(guard) && guard.guard() == granted,
                Err(poison) => r matches Err(e) && e@.guard() == poison@,
            },
            Self::lock_answer(r) == outcome,
    {
        match outcome {
            Ok(inner) => Ok(PinRwLockReadGuard { inner }),
            Err(poison) => Err(PoisonError::new(PinRwLockReadGuard { inner: poison.into_inner() })),
        }
    }

    /// Hands on the answer to a request for shared access that did not wait.
    /// Clean access stays clean, poisoned access stays poisoned around the
    /// same lock guard, and "would block" stays "would block".
    pub fn from_try_read(outcome: TryLockResult<RwLockReadGuard<'a, T>>) -> (r: TryLockResult<
        Self,
    >)
        ensures
            match outcome {
                Ok(granted) => r matches Ok(guard) && guard.guard() == granted,
                Err(TryLockError::Poisoned(poison)) => r matches Err(TryLockError::Poisoned(e))
                    && e@.guard() == poison@,
                Err(TryLockError::WouldBlock) => r matches Err(TryLockError::WouldBlock),
            },
            Self::try_lock_answer(r) == outcome,
    {
        match outcome {
            Ok(inner) => Ok(PinRwLockReadGuard { inner }),
            Err(TryLockError::Poisoned(poison)) => Err(
                TryLockError::Poisoned(
                    PoisonError::new(PinRwLockReadGuard { inner: poison.into_inner() }),
                ),
            ),
            Err(TryLockError::WouldBlock) => Err(TryLockError::WouldBlock),
        }
    }
}

impl<'a, T> std::ops::Deref for PinRwLockReadGuard<'a, T> {
    type Target = T;

    /// The value, to read.
    fn deref(&self) -> (value: &T)
        ensures
            self.shows(value),
    {
        read_guard_target(&self.inner)
    }
}

impl<'a, T: ?Sized> PinRwLockWriteGuard<'a, T> {
    /// The lock guard that this guard holds.
    pub closed spec fn guard(self) -> RwLockWriteGuard<'a, T> {
        self.inner
    }

    /// Whether `value` is what the lock guard that this guard holds can show.
    pub closed spec fn shows(&self, value: &T) -> bool {
        call_ensures(write_guard_shown::<T>, (&self.inner,), value)
    }

    /// The answer of the lock that `r` hands on: the same answer around the
    /// bare lock guard.
    pub closed spec fn lock_answer(r: LockResult<Self>) -> LockResult<RwLockWriteGuard<'a, T>> {
        match r {
            Ok(guard) => Ok(guard.inner),
            Err(poison) => Err(PoisonError { guard: poison.guard.inner }),
        }
    }

    /// The answer of the lock that `r` hands on: the same answer around the
    /// bare lock guard.
    pub closed spec fn try_lock_answer(r: TryLockResult<Self>) -> TryLockResult<
        RwLockWriteGuard<'a, T>,
    > {
        match r {
            Ok(guard) => Ok(guard.inner),
            Err(TryLockError::Poisoned(poison)) => Err(
                TryLockError::Poisoned(PoisonError { guard: poison.guard.inner }),
            ),
            Err(TryLockError::WouldBlock) => Err(TryLockError::WouldBlock),
        }
    }

    /// Hands on the answer to a wait for exclusive access. Access is granted
    /// either way; poison on the lock stays poison on the answer, around the
    /// same lock guard.
    pub fn from_write(outcome: LockResult<RwLockWriteGuard<'a, T>>) -> (r: LockResult<Self>)
        ensures
            match outcome {
                Ok(granted) => r matches Ok(guard) && guard.guard() == granted,
                Err(poison) => r matches Err(e) && e@.guard() == poison@,
            },
            Self::lock_answer(r) == outcome,
    {
        match outcome {
            Ok(inner) => Ok(PinRwLockWriteGuard { inner }),
            Err(poison) => Err(
                PoisonError::new(PinRwLockWriteGuard { inner: poison.into_inner() }),
            ),
        }
    }

    /// Hands on the answer to a request for exclusive access that did not
    /// wait. Clean access stays clean, poisoned access stays poisoned around
    /// the same lock guard, and "would block" stays "would block".
    pub fn from_try_write(outcome: TryLockResult<RwLockWriteGuard<'a, T>>) -> (r: TryLockResult<
        Self,
    >)
        ensures
            match outcome {
                Ok(granted) => r matches Ok(guard) && guard.guard() == granted,
                Err(TryLockError::Poisoned(poison)) => r matches Err(TryLockError::Poisoned(e))
                    && e@.guard() == poison@,
                Err(TryLockError::WouldBlock) => r matches Err(TryLockError::WouldBlock),
            },
            Self::try_lock_answer(r) == outcome,
    {
        match outcome {
            Ok(inner) => Ok(PinRwLockWriteGuard { inner }),
            Err(TryLockError::Poisoned(poison)) => Err(
                TryLockError::Poisoned(
                    PoisonError::new(PinRwLockWriteGuard { inner: poison.into_inner() }),
                ),
            ),
            Err(TryLockError::WouldBlock) => Err(TryLockError::WouldBlock),
        }
    }
}

impl<'a, T: ?Sized> PinRwLockWriteGuard<'a, T> {
    /// Whether `value` is a reference that `DerefMut::deref_mut` can give for
    /// `held`, a mutable reference to the lock guard that a guard holds.
    pub closed spec fn opens(held: &mut RwLockWriteGuard<'a, T>, value: &mut T) -> bool {
        call_ensures(write_guard_target::<T>, (held,), value)
    }

    /// Brings what Verus learns from a call of `DerefMut::deref_mut` under
    /// the name [`Self::opens`].
    proof fn deref_mut_is_named()
        ensures
            forall|held: &mut RwLockWriteGuard<'a, T>, value: &mut T| #[trigger]
                call_ensures(write_guard_target::<T>, (held,), value) ==> Self::opens(held, value),
    {
    }
}

impl<'a, T: Unpin + ?Sized> PinRwLockWriteGuard<'a, T> {
    /// The pinned mutable view of the value: the pin of the reference that
    /// the lock guard of this guard opens to.
    pub fn as_pin(&mut self) -> (view: Pin<&mut T>)
        ensures
            exists|held: &mut RwLockWriteGuard<'a, T>, value: &mut T|
                {
                    &&& #[trigger] Self::opens(held, value)
                    &&& #[trigger] pins(value, view)
                    &&& *held == old(self).guard()
                    &&& *final(held) == final(self).guard()
                },
    {
        proof {
            Self::deref_mut_is_named();
            pin_calls_are_named::<T>();
        }
        pin_new(write_guard_target(&mut self.inner))
    }

    /// The value as a plain mutable reference: the one that the lock guard
    /// of this guard opens to.
    pub fn get_mut(this: &mut Self) -> (value: &mut T)
        ensures
            exists|held: &mut RwLockWriteGuard<'a, T>|
                {
                    &&& #[trigger] Self::opens(held, value)
                    &&& *held == old(this).guard()
                    &&& *final(held) == final(this).guard()
                },
    {
        proof {
            Self::deref_mut_is_named();
        }
        write_guard_target(&mut this.inner)
    }
}

impl<'a, T> std::ops::Deref for PinRwLockWriteGuard<'a, T> {
    type Target = T;

    /// The value, to read.
    fn deref(&self) -> (value: &T)
        ensures
            self.shows(value),
    {
        write_guard_shown(&self.inner)
    }
}

impl<T: ?Sized> PinWeak<T> {
    /// Whether `answer` is what `Weak::upgrade` can give for this handle: a
    /// strong pointer to the allocation that it observes, or nothing.
    pub closed spec fn upgrades_to(&self, answer: Option<Arc<RwLock<T>>>) -> bool {
        call_ensures(weak_upgrade::<T>, (self,), answer)
    }

    /// Whether this handle never upgrades: nothing is all that
    /// `Weak::upgrade` can give for it.
    pub closed spec fn never_upgrades(&self) -> bool {
        forall|answer: Option<Arc<RwLock<T>>>| #[trigger] self.upgrades_to(answer) ==> answer is None
    }

    /// Whether `other` is a handle that `Weak::clone` can make of this one.
    pub closed spec fn clones_to(&self, other: Self) -> bool {
        call_ensures(weak_clone::<T>, (self,), other)
    }

    /// A strong handle to the allocation, if a strong handle to it still
    /// exists; `None` once the last one is gone. A strong handle that comes
    /// back points to the allocation that this handle was downgraded from;
    /// from a handle that never upgrades, none comes back.
    pub fn upgrade(&self) -> (arc: Option<PinArc<T>>)
        ensures
            match arc {
                Some(strong) => self.upgrades_to(Some(strong.allocation())),
                None => self.upgrades_to(None),
            },
            self.never_upgrades() ==> arc is None,
            forall|source: PinArc<T>| #[trigger]
                source.downgrades_to(*self) ==> (arc matches Some(strong)
                    ==> strong.allocation() == source.allocation()),
    {
        let answer = weak_upgrade(self);
        proof {
            // The answer has one of the two shapes that the clause speaks of.
            assert(answer is Some ==> answer == Some(answer->Some_0));
            assert(answer is None ==> answer == None::<Arc<RwLock<T>>>);
        }
        match answer {
            Some(inner) => Some(PinArc::from(inner)),
            None => None,
        }
    }
}

impl<T: ?Sized> Clone for PinWeak<T> {
    /// Another weak handle to the same allocation.
    fn clone(&self) -> (weak: PinWeak<T>)
        ensures
            self.clones_to(weak),
    {
        weak_clone(self)
    }
}

impl<T> Default for PinWeak<T> {
    /// A weak handle to nothing: no allocation is made, and `upgrade` gives
    /// `None`.
    fn default() -> (weak: PinWeak<T>)
        ensures
            weak.never_upgrades(),
    {
        weak_new()
    }
}

/// `RwLock::new`: a new lock that holds `value`, unlocked. Nothing is claimed
/// of it.
#[verifier::external_body]
fn lock_new<T>(value: T) -> (lock: RwLock<T>) {
    RwLock::new(value)
}

/// `RwLock::try_read`: shared access if it can be had at this moment, clean
/// or poisoned, and "would block" otherwise. Which of the three depends on
/// who holds the lock, so nothing is claimed.
#[verifier::external_body]
fn lock_try_read<'a, T: ?Sized>(lock: &'a RwLock<T>) -> (outcome: TryLockResult<
    RwLockReadGuard<'a, T>,
>) {
    match lock.try_read() {
        Ok(guard) => Ok(guard),
        Err(std::sync::TryLockError::Poisoned(poison)) => Err(
            TryLockError::Poisoned(PoisonError { guard: poison.into_inner() }),
        ),
        Err(std::sync::TryLockError::WouldBlock) => Err(TryLockError::WouldBlock),
    }
}

/// `RwLock::try_write`: exclusive access if it can be had at this moment,
/// clean or poisoned, and "would block" otherwise. Which of the three depends
/// on who holds the lock, so nothing is claimed.
#[verifier::external_body]
fn lock_try_write<'a, T: ?Sized>(lock: &'a RwLock<T>) -> (outcome: TryLockResult<
    RwLockWriteGuard<'a, T>,
>) {
    match lock.try_write() {
        Ok(guard) => Ok(guard),
        Err(std::sync::TryLockError::Poisoned(poison)) => Err(
            TryLockError::Poisoned(PoisonError { guard: poison.into_inner() }),
        ),
        Err(std::sync::TryLockError::WouldBlock) => Err(TryLockError::WouldBlock),
    }
}

/// `RwLock::is_poisoned`: whether the lock is poisoned at this moment.
#[verifier::external_body]
fn lock_is_poisoned<T: ?Sized>(lock: &RwLock<T>) -> (poisoned: bool) {
    lock.is_poisoned()
}

/// `Deref::deref` of `RwLockReadGuard`: the value behind shared access.
#[verifier::external_body]
fn read_guard_target<'r, T: ?Sized>(guard: &'r RwLockReadGuard<'_, T>) -> (value: &'r T) {
    std::ops::Deref::deref(guard)
}

/// `Deref::deref` of `RwLockWriteGuard`: the value behind exclusive access,
/// to read.
#[verifier::external_body]
fn write_guard_shown<'r, T: ?Sized>(guard: &'r RwLockWriteGuard<'_, T>) -> (value: &'r T) {
    std::ops::Deref::deref(guard)
}

/// `DerefMut::deref_mut` of `RwLockWriteGuard`: the value behind exclusive
/// access, to write.
#[verifier::external_body]
fn write_guard_target<'r, T: ?Sized>(guard: &'r mut RwLockWriteGuard<'_, T>) -> (value:
    &'r mut T) {
    std::ops::DerefMut::deref_mut(guard)
}

/// `Arc::clone`: another pointer to the same allocation.
#[verifier::external_body]
fn arc_clone<T: ?Sized>(arc: &Arc<RwLock<T>>) -> (other: Arc<RwLock<T>>)
    ensures
        other == *arc,
{
    Arc::clone(arc)
}

/// `Arc::ptr_eq`: whether the two point to the same allocation. For pointers
/// to locks that is equality, a lock being its identity.
#[verifier::external_body]
fn arc_ptr_eq<T: ?Sized>(a: &Arc<RwLock<T>>, b: &Arc<RwLock<T>>) -> (same: bool)
    ensures
        same == (*a == *b),
{
    Arc::ptr_eq(a, b)
}

/// `Arc::strong_count`: the number of strong pointers to the allocation. The
/// pointer that is asked is one of them.
#[verifier::external_body]
fn arc_strong_count<T: ?Sized>(arc: &Arc<RwLock<T>>) -> (n: usize)
    ensures
        n >= 1,
{
    Arc::strong_count(arc)
}

/// `Arc::weak_count`: the number of weak pointers to the allocation.
#[verifier::external_body]
fn arc_weak_count<T: ?Sized>(arc: &Arc<RwLock<T>>) -> (n: usize) {
    Arc::weak_count(arc)
}

/// `Arc::downgrade`: a weak pointer to the same allocation.
#[verifier::external_body]
fn arc_downgrade<T: ?Sized>(arc: &Arc<RwLock<T>>) -> (weak: PinWeak<T>) {
    PinWeak { inner: Arc::downgrade(arc) }
}

/// `Weak::upgrade`: a strong pointer, or `None` if the value is gone. A
/// strong pointer that comes back points to the allocation that the weak
/// pointer was downgraded from.
#[verifier::external_body]
fn weak_upgrade<T: ?Sized>(weak: &PinWeak<T>) -> (arc: Option<Arc<RwLock<T>>>)
    ensures
        forall|source: Arc<RwLock<T>>| #[trigger]
            call_ensures(arc_downgrade::<T>, (&source,), *weak) ==> (arc matches Some(strong) ==> strong
                == source),
{
    weak.inner.upgrade()
}

/// `Weak::clone`: another weak pointer to the same allocation.
#[verifier::external_body]
fn weak_clone<T: ?Sized>(weak: &PinWeak<T>) -> (other: PinWeak<T>) {
    PinWeak { inner: std::sync::Weak::clone(&weak.inner) }
}

/// `Weak::new`: a weak pointer to no allocation. Calling `upgrade` on it
/// always gives `None`.
#[verifier::external_body]
fn weak_new<T>() -> (weak: PinWeak<T>)
    ensures
        forall|answer: Option<Arc<RwLock<T>>>| #[trigger]
            call_ensures(weak_upgrade::<T>, (&weak,), answer) ==> answer is None,
{
    PinWeak { inner: std::sync::Weak::new() }
}

} // verus!
