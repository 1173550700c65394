//! The single-thread container: `Rc<RefCell<T>>` with a pinned mutable view.
use std::cell::{Ref, RefCell, RefMut};
use std::pin::Pin;
use std::rc::Rc;
use crate::{pin_calls_are_named, pin_new, pin_target, pins, unpins};
use vstd::prelude::*;

verus! {

/// `std::cell::RefCell`. To Verus a cell is its identity, never its contents:
/// two cells are equal exactly when they are the same cell.
#[verifier::external_type_specification]
#[verifier::external_body]
#[verifier::reject_recursive_types(T)]
pub struct ExRefCell<T: ?Sized>(RefCell<T>);

/// `std::cell::Ref`, the guard of a shared borrow.
#[verifier::external_type_specification]
#[verifier::external_body]
#[verifier::reject_recursive_types(T)]
pub struct ExRef<'b, T: ?Sized>(Ref<'b, T>);

/// `std::cell::RefMut`, the guard of an exclusive borrow.
#[verifier::external_type_specification]
#[verifier::external_body]
#[verifier::reject_recursive_types(T)]
pub struct ExRefMut<'b, T: ?Sized + 'b>(RefMut<'b, T>);

/// `std::cell::BorrowError`, the refusal of `RefCell::try_borrow`.
#[verifier::external_type_specification]
#[verifier::external_body]
pub struct ExBorrowError(std::cell::BorrowError);

/// `std::cell::BorrowMutError`, the refusal of `RefCell::try_borrow_mut`.
#[verifier::external_type_specification]
#[verifier::external_body]
pub struct ExBorrowMutError(std::cell::BorrowMutError);

/// A strong handle to a value that is shared, counted and never moved.
#[derive(Default, PartialEq, Eq, PartialOrd, Ord, Debug)]
#[verifier::reject_recursive_types(T)]
pub struct PinRc<T: ?Sized> {
    inner: Rc<RefCell<T>>,
}

/// A handle that observes an allocation without keeping its value alive.
///
/// `std::rc::Weak` cannot be declared to Verus, so the whole struct is opaque
/// to it: a weak handle is made, copied and upgraded by the standard library
/// alone.
#[derive(Debug)]
#[verifier::external_body]
#[verifier::reject_recursive_types(T)]
pub struct PinWeak<T: ?Sized> {
    inner: std::rc::Weak<RefCell<T>>,
}

/// Shared access was asked for while an exclusive guard was out.
#[derive(Clone, Copy, Debug, PartialEq, Eq)]
pub struct BorrowError;

/// Exclusive access was asked for while another guard was out.
#[derive(Clone, Copy, Debug, PartialEq, Eq)]
pub struct BorrowMutError;

/// The guard of shared access: while it lives, nobody writes.
#[derive(Debug)]
#[verifier::reject_recursive_types(T)]
pub struct PinRef<'a, T: ?Sized + 'a> {
    inner: Ref<'a, T>,
}

/// The guard of exclusive access, and the only source of a pinned mutable view.
#[derive(Debug)]
#[verifier::reject_recursive_types(T)]
pub struct PinRefMut<'a, T: ?Sized + 'a> {
    inner: RefMut<'a, T>,
}

impl<T> PinRc<T> {
    /// Whether the cell of this handle is one that `RefCell::new` makes from
    /// `data`. This tells where the cell comes from, not what it holds now.
    pub closed spec fn made_from(&self, data: T) -> bool {
        call_ensures(cell_new::<T>, (data,), *self.inner)
    }

    /// Allocates on the heap, moves `data` in, and pins it there.
    pub fn new(data: T) -> (rc: PinRc<T>)
        ensures
            rc.made_from(data),
    {
        PinRc { inner: Rc::new(cell_new(data)) }
    }
}

impl<T: Unpin + ?Sized> PinRc<T> {
    /// Gives up the pin and returns the counted cell itself. Only a value
    /// that may be moved can leave this way.
    pub fn safe_unpin(this: PinRc<T>) -> (rc: Rc<RefCell<T>>)
        ensures
            rc == this.allocation(),
    {
        this.inner
    }
}

impl<T: ?Sized> PinRc<T> {
    /// The allocation this handle points to. A cell being its identity, two
    /// handles share an allocation exactly when these are equal.
    pub closed spec fn allocation(&self) -> Rc<RefCell<T>> {
        self.inner
    }

    /// Whether `n` is a number that `Rc::strong_count` can report for this
    /// allocation.
    pub closed spec fn reports_strong(&self, n: usize) -> bool {
        call_ensures(rc_strong_count::<T>, (&self.inner,), n)
    }

    /// Whether `n` is a number that `Rc::weak_count` can report for this
    /// allocation.
    pub closed spec fn reports_weak(&self, n: usize) -> bool {
        call_ensures(rc_weak_count::<T>, (&self.inner,), n)
    }

    /// Whether `weak` is a handle that `Rc::downgrade` can make for this
    /// allocation.
    pub closed spec fn downgrades_to(&self, weak: PinWeak<T>) -> bool {
        call_ensures(rc_downgrade::<T>, (&self.inner,), weak)
    }

    /// Whether `granted` is a borrow that the cell of this allocation can
    /// give when `RefCell::try_borrow` asks it for shared access.
    pub closed spec fn grants_shared(&self, granted: Ref<'_, T>) -> bool {
        call_ensures(
            cell_try_borrow::<T>,
            (&*self.inner,),
            Ok::<Ref<'_, T>, std::cell::BorrowError>(granted),
        )
    }

    /// Whether the cell of this allocation can refuse when
    /// `RefCell::try_borrow` asks it for shared access.
    pub closed spec fn refuses_shared(&self) -> bool {
        exists|refusal: std::cell::BorrowError|
            call_ensures(
                cell_try_borrow::<T>,
                (&*self.inner,),
                Err::<Ref<'_, T>, std::cell::BorrowError>(refusal),
            )
    }

    /// Whether `granted` is a borrow that the cell of this allocation can
    /// give when `RefCell::try_borrow_mut` asks it for exclusive access.
    pub closed spec fn grants_exclusive(&self, granted: RefMut<'_, T>) -> bool {
        call_ensures(
            cell_try_borrow_mut::<T>,
            (&*self.inner,),
            Ok::<RefMut<'_, T>, std::cell::BorrowMutError>(granted),
        )
    }

    /// Whether the cell of this allocation can refuse when
    /// `RefCell::try_borrow_mut` asks it for exclusive access.
    pub closed spec fn refuses_exclusive(&self) -> bool {
        exists|refusal: std::cell::BorrowMutError|
            call_ensures(
                cell_try_borrow_mut::<T>,
                (&*self.inner,),
                Err::<RefMut<'_, T>, std::cell::BorrowMutError>(refusal),
            )
    }

    /// Whether the two handles point to the same allocation. The values are
    /// not compared.
    pub fn ptr_eq(this: &Self, other: &Self) -> (same: bool)
        ensures
            same == (this.allocation() == other.allocation()),
    {
        rc_ptr_eq(&this.inner, &other.inner)
    }

    /// The number of strong handles to this allocation, this one included.
    pub fn strong_count(this: &Self) -> (n: usize)
        ensures
            this.reports_strong(n),
            n >= 1,
    {
        rc_strong_count(&this.inner)
    }

    /// A weak handle to this allocation. It does not keep the value alive.
    pub fn downgrade(this: &Self) -> (weak: PinWeak<T>)
        ensures
            this.downgrades_to(weak),
    {
        rc_downgrade(&this.inner)
    }

    /// The number of weak handles to this allocation.
    pub fn weak_count(this: &Self) -> (n: usize)
        ensures
            this.reports_weak(n),
    {
        rc_weak_count(&this.inner)
    }

    /// Asks for shared access. Nothing waits: the answer is the one that the
    /// cell of this allocation gives at this moment, handed on by
    /// [`PinRef::from_try_borrow`].
    pub fn try_borrow(&self) -> (r: Result<PinRef<'_, T>, BorrowError>)
        ensures
            match r {
                Ok(guard) => self.grants_shared(guard.guard()),
                Err(_) => self.refuses_shared(),
            },
    {
        let outcome = cell_try_borrow(&self.inner);
        proof {
            // The answer has one of the two shapes that the clauses speak of.
            assert(outcome is Ok ==> outcome == Ok::<Ref<'_, T>, std::cell::BorrowError>(
                outcome->Ok_0,
            ));
            assert(outcome is Err ==> outcome == Err::<Ref<'_, T>, std::cell::BorrowError>(
                outcome->Err_0,
            ));
        }
        PinRef::from_try_borrow(outcome)
    }

    /// Asks for exclusive access. Nothing waits: the answer is the one that
    /// the cell of this allocation gives at this moment, handed on by
    /// [`PinRefMut::from_try_borrow_mut`].
    pub fn try_borrow_mut(&self) -> (r: Result<PinRefMut<'_, T>, BorrowMutError>)
        ensures
            match r {
                Ok(guard) => self.grants_exclusive(guard.guard()),
                Err(_) => self.refuses_exclusive(),
            },
    {
        let outcome = cell_try_borrow_mut(&self.inner);
        proof {
            // The answer has one of the two shapes that the clauses speak of.
            assert(outcome is Ok ==> outcome == Ok::<RefMut<'_, T>, std::cell::BorrowMutError>(
                outcome->Ok_0,
            ));
            assert(outcome is Err ==> outcome == Err::<RefMut<'_, T>, std::cell::BorrowMutError>(
                outcome->Err_0,
            ));
        }
        PinRefMut::from_try_borrow_mut(outcome)
    }
}

impl<T: ?Sized> Clone for PinRc<T> {
    /// Another handle to the same allocation. The value is not copied.
    fn clone(&self) -> (rc: Self)
        ensures
            rc.allocation() == self.allocation(),
    {
        PinRc { inner: rc_clone(&self.inner) }
    }
}

/// A clone points where its source points: asked of the two, `ptr_eq` can
/// only answer that they share an allocation.
pub proof fn clone_shares_allocation<T: ?Sized>(source: PinRc<T>, copy: PinRc<T>, same: bool)
    requires
        call_ensures(<PinRc<T> as Clone>::clone, (&source,), copy),
        call_ensures(PinRc::<T>::ptr_eq, (&source, &copy), same),
    ensures
        same,
{
}

/// What was downgraded is what comes back: where `upgrade` gives a strong
/// handle for a weak handle that `downgrade` made of `source`, `ptr_eq` can
/// only answer that the two share an allocation.
pub proof fn upgrade_gives_the_source<T: ?Sized>(
    source: PinRc<T>,
    weak: PinWeak<T>,
    strong: PinRc<T>,
    same: bool,
)
    requires
        call_ensures(PinRc::<T>::downgrade, (&source,), weak),
        call_ensures(PinWeak::<T>::upgrade, (&weak,), Some(strong)),
        call_ensures(PinRc::<T>::ptr_eq, (&source, &strong), same),
    ensures
        same,
{
}

/// A weak handle to nothing never upgrades: for a handle that `default`
/// made, `upgrade` can only give `None`.
pub proof fn default_weak_never_upgrades<T>(weak: PinWeak<T>, answer: Option<PinRc<T>>)
    requires
        call_ensures(<PinWeak<T> as Default>::default, (), weak),
        call_ensures(PinWeak::<T>::upgrade, (&weak,), answer),
    ensures
        answer is None,
{
}

impl<T> From<T> for PinRc<T> {
    /// The same as [`PinRc::new`].
    fn from(t: T) -> (rc: Self)
        ensures
            rc.made_from(t),
    {
        PinRc::new(t)
    }
}

impl<T> vstd::std_specs::convert::FromSpecImpl<T> for PinRc<T> {
    /// Every call allocates anew, so the handle is no function of the value.
    open spec fn obeys_from_spec() -> bool {
        false
    }

    open spec fn from_spec(t: T) -> Self {
        arbitrary()
    }
}

impl<T: ?Sized> From<Rc<RefCell<T>>> for PinRc<T> {
    /// Takes a counted cell as it is and pins its value from now on.
    fn from(inner: Rc<RefCell<T>>) -> (rc: Self)
        ensures
            rc.allocation() == inner,
    {
        PinRc { inner }
    }
}

impl<T: ?Sized> vstd::std_specs::convert::FromSpecImpl<Rc<RefCell<T>>> for PinRc<T> {
    open spec fn obeys_from_spec() -> bool {
        true
    }

    /// The handle to the very allocation that was handed in.
    closed spec fn from_spec(inner: Rc<RefCell<T>>) -> Self {
        PinRc { inner }
    }
}

impl<'a, T: ?Sized> PinRef<'a, T> {
    /// The borrow that this guard holds.
    pub closed spec fn guard(self) -> Ref<'a, T> {
        self.inner
    }

    /// Hands on the answer to a request for shared access: a borrow that was
    /// granted becomes a guard around that same borrow, a refusal becomes
    /// [`BorrowError`].
    pub fn from_try_borrow(outcome: Result<Ref<'a, T>, std::cell::BorrowError>) -> (r: Result<
        Self,
        BorrowError,
    >)
        ensures
            match outcome {
                Ok(granted) => r matches Ok(guard) && guard.guard() == granted,
                Err(_) => r is Err,
            },
    {
        match outcome {
            Ok(inner) => Ok(PinRef { inner }),
            Err(_) => Err(BorrowError),
        }
    }

    /// Whether `other` holds a borrow that `Ref::clone` can make from the
    /// borrow that this guard holds.
    pub closed spec fn clones_to(&self, other: Self) -> bool {
        call_ensures(ref_clone::<T>, (&self.inner,), other.inner)
    }

    /// Whether `value` is what the borrow that this guard holds can show.
    pub closed spec fn shows(&self, value: &T) -> bool {
        call_ensures(ref_target::<T>, (&self.inner,), value)
    }

    /// A second guard of the same shared access. The cell is already
    /// borrowed as shared, so this cannot be refused.
    pub fn clone(this: &Self) -> (other: Self)
        ensures
            this.clones_to(other),
    {
        PinRef { inner: ref_clone(&this.inner) }
    }
}

impl<'a, T> std::ops::Deref for PinRef<'a, T> {
    type Target = T;

    /// The value, to read.
    fn deref(&self) -> (value: &T)
        ensures
            self.shows(value),
    {
        ref_target(&self.inner)
    }
}

impl<'a, T: ?Sized> PinRefMut<'a, T> {
    /// The borrow that this guard holds.
    pub closed spec fn guard(self) -> RefMut<'a, T> {
        self.inner
    }

    /// Whether `value` is what the borrow that this guard holds can show.
    pub closed spec fn shows(&self, value: &T) -> bool {
        call_ensures(refmut_shown::<T>, (&self.inner,), value)
    }

    /// Whether `value` is a reference that `DerefMut::deref_mut` can give for
    /// `borrow`, a mutable reference to the borrow that a guard holds.
    pub closed spec fn opens(borrow: &mut RefMut<'a, T>, value: &mut T) -> bool {
        call_ensures(refmut_target::<T>, (borrow,), value)
    }

    /// Brings what Verus learns from a call of `DerefMut::deref_mut` under
    /// the name [`Self::opens`].
    proof fn deref_mut_is_named()
        ensures
            forall|borrow: &mut RefMut<'a, T>, value: &mut T| #[trigger]
                call_ensures(refmut_target::<T>, (borrow,), value) ==> Self::opens(borrow, value),
    {
    }

    /// Hands on the answer to a request for exclusive access: a borrow that
    /// was granted becomes a guard around that same borrow, a refusal becomes
    /// [`BorrowMutError`].
    pub fn from_try_borrow_mut(
        outcome: Result<RefMut<'a, T>, std::cell::BorrowMutError>,
    ) -> (r: Result<Self, BorrowMutError>)
        ensures
            match outcome {
                Ok(granted) => r matches Ok(guard) && guard.guard() == granted,
                Err(_) => r is Err,
            },
    {
        match outcome {
            Ok(inner) => Ok(PinRefMut { inner }),
            Err(_) => Err(BorrowMutError),
        }
    }
}

impl<'a, T: Unpin + ?Sized> PinRefMut<'a, T> {
    /// The pinned mutable view of the value: the pin of the reference that
    /// the borrow of this guard opens to.
    pub fn as_pin(&mut self) -> (view: Pin<&mut T>)
        ensures
            exists|borrow: &mut RefMut<'a, T>, value: &mut T|
                {
                    &&& #[trigger] Self::opens(borrow, value)
                    &&& #[trigger] pins(value, view)
                    &&& *borrow == old(self).guard()
                    &&& *final(borrow) == final(self).guard()
                },
    {
        proof {
            Self::deref_mut_is_named();
            pin_calls_are_named::<T>();
        }
        pin_new(refmut_target(&mut self.inner))
    }

    /// The value as a plain mutable reference: the one that the borrow of
    /// this guard opens to.
    pub fn get_mut(this: &mut Self) -> (value: &mut T)
        ensures
            exists|borrow: &mut RefMut<'a, T>|
                {
                    &&& #[trigger] Self::opens(borrow, value)
                    &&& *borrow == old(this).guard()
                    &&& *final(borrow) == final(this).guard()
                },
    {
        proof {
            Self::deref_mut_is_named();
        }
        refmut_target(&mut this.inner)
    }

    /// Whether `part` holds a borrow that `RefMut::map` can make from the
    /// borrow that this guard holds, with a closure that hands the pinned
    /// view of the whole to `f` and unpins what `f` picks.
    pub closed spec fn narrows_to<U: Unpin + ?Sized, F>(self, f: F, part: PinRefMut<'a, U>) -> bool
        where
            F: FnOnce(Pin<&mut T>) -> Pin<&mut U>,
    {
        call_ensures(refmut_map::<T, U, F>, (self.inner, f), part.inner)
    }

    /// Whether `part` is the guard of what `f` picks out of the value of this
    /// guard: the borrow of this guard opens to the whole, `f` is asked on a
    /// pin of the whole, and the borrow of `part` opens to what `f` picked,
    /// unpinned.
    pub closed spec fn picked_by<U: Unpin + ?Sized, F>(self, f: F, part: PinRefMut<'a, U>) -> bool
        where
            F: FnOnce(Pin<&mut T>) -> Pin<&mut U>,
    {
        exists|
            borrow: &mut RefMut<'a, T>,
            whole: &mut T,
            taken: &mut T,
            view: Pin<&mut T>,
            picked_view: Pin<&mut U>,
            picked: &mut U,
            held: &mut RefMut<'a, U>,
        |
            {
                &&& *borrow == self.inner
                &&& #[trigger] Self::opens(borrow, whole)
                &&& &*taken == &*whole
                &&& #[trigger] pins(taken, view)
                &&& #[trigger] call_ensures(f, (view,), picked_view)
                &&& #[trigger] unpins(picked_view, picked)
                &&& *held == part.inner
                &&& #[trigger] PinRefMut::<'a, U>::opens(held, picked)
            }
    }

    /// Narrows the guard to a part of the value: `f` picks the part out of
    /// the pinned view of the whole. The borrow goes on; `orig` is used up.
    pub fn map<U: Unpin + ?Sized, F>(orig: Self, f: F) -> (part: PinRefMut<'a, U>)
        where
            F: FnOnce(Pin<&mut T>) -> Pin<&mut U>,
        requires
            forall|whole: Pin<&mut T>| call_requires(f, (whole,)),
        ensures
            orig.narrows_to(f, part),
            orig.picked_by(f, part),
    {
        let inner = refmut_map(orig.inner, f);
        proof {
            // What `RefMut::map` did: the whole it opened, and what the
            // helper gave for it.
            let (borrow, whole, held, picked) = choose|
                borrow: &mut RefMut<'a, T>,
                whole: &mut T,
                held: &mut RefMut<'a, U>,
                picked: &mut U,
            |
                {
                    &&& *borrow == orig.inner
                    &&& #[trigger] call_ensures(refmut_target::<T>, (borrow,), whole)
                    &&& #[trigger] call_ensures(part_of::<T, U, F>, (f, whole), picked)
                    &&& *held == inner
                    &&& #[trigger] call_ensures(refmut_target::<U>, (held,), picked)
                };
            // What the helper did to give it: the pin, and what `f` picked.
            let (taken, view, picked_view) = choose|
                taken: &mut T,
                view: Pin<&mut T>,
                picked_view: Pin<&mut U>,
            |
                {
                    &&& #[trigger] pins(taken, view)
                    &&& #[trigger] call_ensures(f, (view,), picked_view)
                    &&& #[trigger] unpins(picked_view, picked)
                    &&& &*taken == &*whole
                };
            assert(Self::opens(borrow, whole));
            assert(PinRefMut::<'a, U>::opens(held, picked));
        }
        PinRefMut { inner }
    }
}

/// The part that `f` picks out of `whole`, as a plain reference: `whole` is
/// pinned, `f` is asked once, on that pin, and what it picks is unpinned.
fn part_of<'r, T: Unpin + ?Sized, U: Unpin + ?Sized, F>(f: F, whole: &'r mut T) -> (part: &'r mut U)
    where
        F: FnOnce(Pin<&'r mut T>) -> Pin<&'r mut U>,
    requires
        forall|view: Pin<&mut T>| call_requires(f, (view,)),
    ensures
        exists|taken: &mut T, view: Pin<&mut T>, picked: Pin<&mut U>|
            {
                &&& #[trigger] pins(taken, view)
                &&& #[trigger] call_ensures(f, (view,), picked)
                &&& #[trigger] unpins(picked, part)
                &&& &*taken == &*old(whole)
                &&& &*final(taken) == &*final(whole)
            },
{
    proof {
        pin_calls_are_named::<T>();
        pin_calls_are_named::<U>();
    }
    pin_target(f(pin_new(whole)))
}

impl<'a, T> std::ops::Deref for PinRefMut<'a, T> {
    type Target = T;

    /// The value, to read.
    fn deref(&self) -> (value: &T)
        ensures
            self.shows(value),
    {
        refmut_shown(&self.inner)
    }
}

impl<T: ?Sized> PinWeak<T> {
    /// Whether `answer` is what `Weak::upgrade` can give for this handle: a
    /// strong pointer to the allocation that it observes, or nothing.
    pub closed spec fn upgrades_to(&self, answer: Option<Rc<RefCell<T>>>) -> bool {
        call_ensures(weak_upgrade::<T>, (self,), answer)
    }

    /// Whether this handle never upgrades: nothing is all that
    /// `Weak::upgrade` can give for it.
    pub closed spec fn never_upgrades(&self) -> bool {
        forall|answer: Option<Rc<RefCell<T>>>| #[trigger] self.upgrades_to(answer) ==> answer is None
    }

    /// Whether `other` is a handle that `Weak::clone` can make of this one.
    pub closed spec fn clones_to(&self, other: Self) -> bool {
        call_ensures(weak_clone::<T>, (self,), other)
    }

    /// A strong handle to the allocation, if a strong handle to it still
    /// exists; `None` once the last one is gone. A strong handle that comes
    /// back points to the allocation that this handle was downgraded from;
    /// from a handle that never upgrades, none comes back.
    pub fn upgrade(&self) -> (rc: Option<PinRc<T>>)
        ensures
            match rc {
                Some(strong) => self.upgrades_to(Some(strong.allocation())),
                None => self.upgrades_to(None),
            },
            self.never_upgrades() ==> rc is None,
            forall|source: PinRc<T>| #[trigger]
                source.downgrades_to(*self) ==> (rc matches Some(strong)
                    ==> strong.allocation() == source.allocation()),
    {
        let answer = weak_upgrade(self);
        proof {
            // The answer has one of the two shapes that the clause speaks of.
            assert(answer is Some ==> answer == Some(answer->Some_0));
            assert(answer is None ==> answer == None::<Rc<RefCell<T>>>);
        }
        match answer {
            Some(inner) => Some(PinRc::from(inner)),
            None => None,
        }
    }
}

impl<T: ?Sized> Clone for PinWeak<T> {
    /// Another weak handle to the same allocation.
    fn clone(&self) -> (weak: PinWeak<T>)
        ensures
            self.clones_to(weak),
    {
        weak_clone(self)
    }
}

impl<T> Default for PinWeak<T> {
    /// A weak handle to nothing: no allocation is made, and `upgrade` gives
    /// `None`.
    fn default() -> (weak: PinWeak<T>)
        ensures
            weak.never_upgrades(),
    {
        weak_new()
    }
}

/// `RefCell::new`: a new cell that holds `value`. Nothing is claimed of it.
#[verifier::external_body]
fn cell_new<T>(value: T) -> (cell: RefCell<T>) {
    RefCell::new(value)
}

/// `RefCell::try_borrow`: a shared borrow, or a refusal if the cell is
/// exclusively borrowed at this moment. Which of the two comes back depends on
/// the borrows that are out, so nothing is claimed.
#[verifier::external_body]
fn cell_try_borrow<'a, T: ?Sized>(cell: &'a RefCell<T>) -> (outcome: Result<
    Ref<'a, T>,
    std::cell::BorrowError,
>) {
    cell.try_borrow()
}

/// `RefCell::try_borrow_mut`: an exclusive borrow, or a refusal if the cell is
/// borrowed at this moment. Which of the two comes back depends on the borrows
/// that are out, so nothing is claimed.
#[verifier::external_body]
fn cell_try_borrow_mut<'a, T: ?Sized>(cell: &'a RefCell<T>) -> (outcome: Result<
    RefMut<'a, T>,
    std::cell::BorrowMutError,
>) {
    cell.try_borrow_mut()
}

/// `Ref::clone`: a second shared borrow of the same cell.
#[verifier::external_body]
fn ref_clone<'a, T: ?Sized>(guard: &Ref<'a, T>) -> (other: Ref<'a, T>) {
    Ref::clone(guard)
}

/// `Deref::deref` of `Ref`: the value behind a shared borrow.
#[verifier::external_body]
fn ref_target<'r, T: ?Sized>(guard: &'r Ref<'_, T>) -> (value: &'r T) {
    std::ops::Deref::deref(guard)
}

/// `Deref::deref` of `RefMut`: the value behind an exclusive borrow, to read.
#[verifier::external_body]
fn refmut_shown<'r, T: ?Sized>(guard: &'r RefMut<'_, T>) -> (value: &'r T) {
    std::ops::Deref::deref(guard)
}

/// `DerefMut::deref_mut` of `RefMut`: the value behind an exclusive borrow,
/// to write.
#[verifier::external_body]
fn refmut_target<'r, T: ?Sized>(guard: &'r mut RefMut<'_, T>) -> (value: &'r mut T) {
    std::ops::DerefMut::deref_mut(guard)
}

/// Whether `part` is a borrow that `RefMut::map` makes of `guard` with a
/// closure that asks [`part_of`] for the part: `guard` opens to the whole,
/// `part_of` is asked for the part of `f` in the whole, and `part` opens to
/// what `part_of` gave.
spec fn mapped_by_part_of<'a, T: Unpin + ?Sized, U: Unpin + ?Sized, F>(
    guard: RefMut<'a, T>,
    f: F,
    part: RefMut<'a, U>,
) -> bool
    where
        F: FnOnce(Pin<&mut T>) -> Pin<&mut U>,
{
    exists|
        borrow: &mut RefMut<'a, T>,
        whole: &mut T,
        held: &mut RefMut<'a, U>,
        picked: &mut U,
    |
        {
            &&& *borrow == guard
            &&& #[trigger] call_ensures(refmut_target::<T>, (borrow,), whole)
            &&& #[trigger] call_ensures(part_of::<T, U, F>, (f, whole), picked)
            &&& *held == part
            &&& #[trigger] call_ensures(refmut_target::<U>, (held,), picked)
        }
}

/// `RefMut::map`: a new guard for a component of the borrowed value. The
/// closure is run once, on the value that `guard` opens to, and the new guard
/// opens to what the closure gave.
#[verifier::external_body]
fn refmut_map<'a, T: Unpin + ?Sized, U: Unpin + ?Sized, F>(guard: RefMut<'a, T>, f: F) -> (part:
    RefMut<'a, U>)
    where
        F: FnOnce(Pin<&mut T>) -> Pin<&mut U>,
    requires
        forall|whole: Pin<&mut T>| call_requires(f, (whole,)),
    ensures
        mapped_by_part_of(guard, f, part),
{
    RefMut::map(guard, |whole| part_of(f, whole))
}

/// `Rc::downgrade`: a weak pointer to the same allocation.
#[verifier::external_body]
fn rc_downgrade<T: ?Sized>(rc: &Rc<RefCell<T>>) -> (weak: PinWeak<T>) {
    PinWeak { inner: Rc::downgrade(rc) }
}

/// `Rc::weak_count`: the number of weak pointers to the allocation.
#[verifier::external_body]
fn rc_weak_count<T: ?Sized>(rc: &Rc<RefCell<T>>) -> (n: usize) {
    Rc::weak_count(rc)
}

/// `Weak::upgrade`: a strong pointer, or `None` if the value is gone. A
/// strong pointer that comes back points to the allocation that the weak
/// pointer was downgraded from.
#[verifier::external_body]
fn weak_upgrade<T: ?Sized>(weak: &PinWeak<T>) -> (rc: Option<Rc<RefCell<T>>>)
    ensures
        forall|source: Rc<RefCell<T>>| #[trigger]
            call_ensures(rc_downgrade::<T>, (&source,), *weak) ==> (rc matches Some(strong) ==> strong
                == source),
{
    weak.inner.upgrade()
}

/// `Weak::clone`: another weak pointer to the same allocation.
#[verifier::external_body]
fn weak_clone<T: ?Sized>(weak: &PinWeak<T>) -> (other: PinWeak<T>) {
    PinWeak { inner: std::rc::Weak::clone(&weak.inner) }
}

/// `Weak::new`: a weak pointer to no allocation. Calling `upgrade` on it
/// always gives `None`.
#[verifier::external_body]
fn weak_new<T>() -> (weak: PinWeak<T>)
    ensures
        forall|answer: Option<Rc<RefCell<T>>>| #[trigger]
            call_ensures(weak_upgrade::<T>, (&weak,), answer) ==> answer is None,
{
    PinWeak { inner: std::rc::Weak::new() }
}

/// `Rc::clone`: another pointer to the same allocation.
#[verifier::external_body]
fn rc_clone<T: ?Sized>(rc: &Rc<RefCell<T>>) -> (other: Rc<RefCell<T>>)
    ensures
        other == *rc,
{
    Rc::clone(rc)
}

/// `Rc::ptr_eq`: whether the two point to the same allocation. For pointers
/// to cells that is equality, a cell being its identity.
#[verifier::external_body]
fn rc_ptr_eq<T: ?Sized>(a: &Rc<RefCell<T>>, b: &Rc<RefCell<T>>) -> (same: bool)
    ensures
        same == (*a == *b),
{
    Rc::ptr_eq(a, b)
}

/// `Rc::strong_count`: the number of strong pointers to the allocation. The
/// pointer that is asked is one of them.
#[verifier::external_body]
fn rc_strong_count<T: ?Sized>(rc: &Rc<RefCell<T>>) -> (n: usize)
    ensures
        n >= 1,
{
    Rc::strong_count(rc)
}

} // verus!
