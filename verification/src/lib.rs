//! Lending an exclusive reference to a callback that must hand it back.
//!
//! A caller that holds `&'a mut T` and has to call code written for a longer
//! lifetime can widen the reference for the span of one call, provided the
//! callee gives the reference back. That proviso cannot be checked by types.
//! It is checked here by the address of the storage: the address is captured
//! before the loan, and the reference that comes back has to lie there.
//!
//! * [`extend_mut`] runs this protocol for one reference.
//! * [`ExtendMut`] runs it for a group of references lent at once.
//! * [`task::ExtendMutTask`] keeps the books of a loan whose callback
//!   suspends and is resumed from outside.
//!
//! A breach is reported as a [`Violation`](aborts::Violation), never as a
//! value that looks like success. After a breach the owner may share its
//! storage with a stranger, so the process has to stop; that, like the
//! widening itself, is done by the caller, outside verified code. Every
//! function here takes references whose lifetime already covers the loan.
//!
//! The contracts speak of a callback through its own contract: whatever the
//! callback ensures of the reference it was lent and of its answer holds of
//! the loan. [`laws`] draws the consequences for callbacks that keep to the
//! protocol.

use vstd::prelude::*;
use vstd::layout::size_of;

pub mod aborts;
pub mod witness;
pub mod impls;
pub mod laws;
pub mod task;

use crate::aborts::Violation;
use crate::witness::{address_of, AddressWitness};

verus! {

/// Lets a callback answer with the reference alone or with the reference and
/// an auxiliary value: either answer is brought to the second shape.
///
/// An implementation says in its own `ensures` how it splits the answer. The
/// contracts of the lending functions refer to that through `call_ensures`, so
/// what they promise of the parts is what the implementation promises.
pub trait IntoExtendMutReturn<T, R>: Sized {
    /// Splits the answer into what is handed back and the auxiliary value.
    fn into_extend_mut_return(self) -> (ret: (T, R));
}

/// Whether `f` may be called on every group that `wanted` admits.
pub open spec fn accepts<E, A, F: FnOnce(E) -> A>(f: F, wanted: spec_fn(E) -> bool) -> bool {
    forall|lent: E| wanted(lent) ==> #[trigger] f.requires((lent,))
}

/// Whether `ret` is an outcome of lending to `f` a group that `wanted` admits:
/// `f` ran on that group, its answer was split into what came back and the
/// auxiliary value, and `ret` either releases that value or reports that a
/// pointer changed.
pub open spec fn concludes<E, A, R, F>(
    f: F,
    wanted: spec_fn(E) -> bool,
    ret: Result<R, Violation>,
) -> bool where A: IntoExtendMutReturn<E, R>, F: FnOnce(E) -> A {
    exists|lent: E, answer: A, back: E, payload: R|
        wanted(lent)
        && #[trigger] f.ensures((lent,), answer)
        && #[trigger] call_ensures(A::into_extend_mut_return, (answer,), (back, payload))
        && (ret == Ok::<R, Violation>(payload)
            || ret == Err::<R, Violation>(Violation::PointerChanged))
}

/// A reference, or a group of references, that can be lent out as a whole.
///
/// The contract below is what holds of every group. Each implementation adds
/// what can only be said of its own members: that every member ends with the
/// value that its lent counterpart ends with, and that nothing writes through
/// the references that came back.
pub trait ExtendMut<'b>: Sized {
    /// What the callback receives: the same references under the lifetime that
    /// the callback asks for.
    type Extended;

    /// Whether every member refers to a value of nonzero size.
    spec fn sized() -> bool;

    /// Whether `lent` holds, member by member, the values that `self` holds.
    spec fn lends(self, lent: Self::Extended) -> bool;

    /// Lends every member to `f` at once and checks that `f` hands every one
    /// of them back. A group with a member of size zero is refused before `f`
    /// runs. Otherwise the address of every member is captured, `f` runs once
    /// on the whole group, and the auxiliary value is released if every member
    /// came back at its own address.
    fn extend_mut<R, ER, F>(self, f: F) -> (ret: Result<R, Violation>)
        where
            ER: IntoExtendMutReturn<Self::Extended, R>,
            F: FnOnce(Self::Extended) -> ER,
        requires
            Self::sized() ==> accepts::<Self::Extended, ER, F>(
                f,
                |lent: Self::Extended| self.lends(lent),
            ),
        ensures
            !Self::sized() ==> ret == Err::<R, Violation>(Violation::ZeroSized),
            Self::sized() ==> concludes::<Self::Extended, ER, R, F>(
                f,
                |lent: Self::Extended| self.lends(lent),
                ret,
            ),
    ;
}

/// Lends `mut_ref` to `f` without any check: where the reference outlives the
/// lifetime that `f` asks for, the borrow checker has already shown that the
/// loan is sound.
pub fn extend_mut_proof_for_smaller<'a: 'b, 'b, T: 'b, R>(
    mut_ref: &'a mut T,
    f: impl FnOnce(&'b mut T) -> (&'b mut T, R),
) -> (ret: R)
    requires
        forall|lent: &'b mut T| *lent == *old(mut_ref) ==> #[trigger] f.requires((lent,)),
    ensures
        exists|lent: &'b mut T, back: &'b mut T|
            *lent == *old(mut_ref)
            && *final(mut_ref) == *final(lent)
            && #[trigger] f.ensures((lent,), (back, ret))
            && *final(back) == *back,
{
    let (back, ret) = f(mut_ref);
    proof {
        let ghost_back = back;
        let lent: &mut T = choose|lent: &mut T|
            *lent == *old(mut_ref) && *final(mut_ref) == *final(lent)
            && f.ensures((lent,), (ghost_back, ret));
        assert(f.ensures((lent,), (ghost_back, ret)));
    }
    ret
}

/// Lends `mut_ref` to `f` and checks that `f` hands the same reference back.
///
/// A value of size zero is refused before `f` runs. Otherwise `f` runs once
/// on a reference to the value behind `mut_ref`, its answer is split into the
/// reference that came back and the auxiliary value, and the auxiliary value
/// is returned if that reference lies at the address that was captured before
/// the call. What `f` wrote through the reference it was lent is what
/// `mut_ref` holds afterwards.
pub fn extend_mut<'a: 'b, 'b, T: 'b, F, R, ExtR>(mut_ref: &'a mut T, f: F) -> (ret: Result<R, Violation>)
    where
        F: FnOnce(&'b mut T) -> ExtR,
        ExtR: IntoExtendMutReturn<&'b mut T, R>,
    requires
        size_of::<T>() != 0 ==> forall|lent: &'b mut T| *lent == *old(mut_ref) ==> #[trigger] f.requires((lent,)),
    ensures
        size_of::<T>() == 0 ==> ret == Err::<R, Violation>(Violation::ZeroSized)
            && *final(mut_ref) == *old(mut_ref),
        size_of::<T>() != 0 ==> exists|lent: &'b mut T, answer: ExtR, back: &'b mut T, payload: R|
            *lent == *old(mut_ref)
            && *final(mut_ref) == *final(lent)
            && #[trigger] f.ensures((lent,), answer)
            && #[trigger] call_ensures(ExtR::into_extend_mut_return, (answer,), (back, payload))
            && *final(back) == *back
            && (ret == Ok::<R, Violation>(payload)
                || ret == Err::<R, Violation>(Violation::PointerChanged)),
{
    if core::mem::size_of::<T>() == 0 {
        return Err(Violation::ZeroSized);
    }
    let witness = AddressWitness::new(address_of(mut_ref));
    let answer = f(mut_ref);
    let ghost ghost_answer = answer;
    let (back, payload) = answer.into_extend_mut_return();
    let ghost ghost_back = back;
    let ghost ghost_payload = payload;
    let ret = witness.release(address_of(back), payload);
    proof {
        let lent: &mut T = choose|lent: &mut T|
            *lent == *old(mut_ref) && *final(mut_ref) == *final(lent)
            && f.ensures((lent,), ghost_answer);
        assert(f.ensures((lent,), ghost_answer));
        assert(call_ensures(
            ExtR::into_extend_mut_return,
            (ghost_answer,),
            (ghost_back, ghost_payload),
        ));
    }
    ret
}

} // verus!
