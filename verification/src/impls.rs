//! The two answer shapes and the groups of references that can be lent out.
//!
//! A callback may answer with what it was lent alone, or with what it was lent
//! and an auxiliary value. Groups are tuples of exclusive references; every
//! member is witnessed by its own address.

use vstd::prelude::*;
use vstd::layout::size_of;
use crate::aborts::Violation;
use crate::witness::{address_of, AddressWitness};
use crate::{extend_mut, ExtendMut, IntoExtendMutReturn};

verus! {

impl<'a, T, R> IntoExtendMutReturn<&'a mut T, R> for (&'a mut T, R) {
    fn into_extend_mut_return(self) -> (ret: (&'a mut T, R))
        ensures
            ret == self,
    {
        self
    }
}

impl<'a, T> IntoExtendMutReturn<&'a mut T, ()> for &'a mut T {
    fn into_extend_mut_return(self) -> (ret: (&'a mut T, ()))
        ensures
            *ret.0 == *old(self),
            *final(ret.0) == *final(self),
    {
        (self, ())
    }
}

impl<R> IntoExtendMutReturn<(), R> for ((), R) {
    fn into_extend_mut_return(self) -> (ret: ((), R))
        ensures
            ret == self,
    {
        self
    }
}

impl IntoExtendMutReturn<(), ()> for () {
    fn into_extend_mut_return(self) -> (ret: ((), ()))
        ensures
            ret == ((), ()),
    {
        ((), ())
    }
}

impl<'a: 'b, 'b, T: 'b> ExtendMut<'b> for &'a mut T {
    type Extended = &'b mut T;

    open spec fn sized() -> bool {
        size_of::<T>() != 0
    }

    open spec fn lends(self, lent: &'b mut T) -> bool {
        *lent == *self
    }

    fn extend_mut<R, ER, F>(self, f: F) -> (ret: Result<R, Violation>)
        where
            ER: IntoExtendMutReturn<&'b mut T, R>,
            F: FnOnce(&'b mut T) -> ER,
        ensures
            size_of::<T>() == 0 ==> *final(self) == *old(self),
            size_of::<T>() != 0 ==> exists|lent: &'b mut T, answer: ER, back: &'b mut T, payload: R|
                *lent == *old(self)
                && *final(self) == *final(lent)
                && #[trigger] f.ensures((lent,), answer)
                && #[trigger] call_ensures(ER::into_extend_mut_return, (answer,), (back, payload))
                && *final(back) == *back
                && (ret == Ok::<R, Violation>(payload)
                    || ret == Err::<R, Violation>(Violation::PointerChanged)),
    {
        let ret = extend_mut(self, f);
        proof {
            if size_of::<T>() != 0 {
                let (lent, answer, back, payload): (&mut T, ER, &mut T, R) = choose|
                    lent: &mut T,
                    answer: ER,
                    back: &mut T,
                    payload: R,
                |
                    *lent == *old(self) && *final(self) == *final(lent)
                    && #[trigger] f.ensures((lent,), answer)
                    && #[trigger] call_ensures(ER::into_extend_mut_return, (answer,), (back, payload))
                    && *final(back) == *back
                    && (ret == Ok::<R, Violation>(payload)
                        || ret == Err::<R, Violation>(Violation::PointerChanged));
                assert(f.ensures((lent,), answer));
                assert(call_ensures(ER::into_extend_mut_return, (answer,), (back, payload)));
            }
        }
        ret
    }
}

impl<'b> ExtendMut<'b> for () {
    type Extended = ();

    open spec fn sized() -> bool {
        true
    }

    open spec fn lends(self, lent: ()) -> bool {
        true
    }

    fn extend_mut<R, ER, F>(self, f: F) -> (ret: Result<R, Violation>)
        where
            ER: IntoExtendMutReturn<(), R>,
            F: FnOnce(()) -> ER,
        ensures
            exists|answer: ER, back: (), payload: R|
                #[trigger] f.ensures(((),), answer)
                && #[trigger] call_ensures(ER::into_extend_mut_return, (answer,), (back, payload))
                && ret == Ok::<R, Violation>(payload),
    {
        let answer = f(());
        let ghost ghost_answer = answer;
        let (back, payload) = answer.into_extend_mut_return();
        proof {
            assert(f.ensures(((),), ghost_answer));
            assert(call_ensures(ER::into_extend_mut_return, (ghost_answer,), (back, payload)));
        }
        Ok(payload)
    }
}

impl<'a, T1, R> IntoExtendMutReturn<(&'a mut T1,), R> for ((&'a mut T1,), R) {
    fn into_extend_mut_return(self) -> (ret: ((&'a mut T1,), R))
        ensures
            ret == self,
    {
        self
    }
}

impl<'a, T1> IntoExtendMutReturn<(&'a mut T1,), ()> for (&'a mut T1,) {
    fn into_extend_mut_return(self) -> ((&'a mut T1,), ())
        returns
            (self, ()),
    {
        (self, ())
    }
}

impl<'a, T1, T2, R> IntoExtendMutReturn<(&'a mut T1, &'a mut T2), R> for ((&'a mut T1, &'a mut T2), R) {
    fn into_extend_mut_return(self) -> (ret: ((&'a mut T1, &'a mut T2), R))
        ensures
            ret == self,
    {
        self
    }
}

impl<'a, T1, T2> IntoExtendMutReturn<(&'a mut T1, &'a mut T2), ()> for (&'a mut T1, &'a mut T2) {
    fn into_extend_mut_return(self) -> ((&'a mut T1, &'a mut T2), ())
        returns
            (self, ()),
    {
        (self, ())
    }
}

impl<'a, T1, T2, T3, R> IntoExtendMutReturn<(&'a mut T1, &'a mut T2, &'a mut T3), R> for ((&'a mut T1, &'a mut T2, &'a mut T3), R) {
    fn into_extend_mut_return(self) -> (ret: ((&'a mut T1, &'a mut T2, &'a mut T3), R))
        ensures
            ret == self,
    {
        self
    }
}

impl<'a, T1, T2, T3> IntoExtendMutReturn<(&'a mut T1, &'a mut T2, &'a mut T3), ()> for (&'a mut T1, &'a mut T2, &'a mut T3) {
    fn into_extend_mut_return(self) -> ((&'a mut T1, &'a mut T2, &'a mut T3), ())
        returns
            (self, ()),
    {
        (self, ())
    }
}

impl<'a, T1, T2, T3, T4, R> IntoExtendMutReturn<(&'a mut T1, &'a mut T2, &'a mut T3, &'a mut T4), R> for ((&'a mut T1, &'a mut T2, &'a mut T3, &'a mut T4), R) {
    fn into_extend_mut_return(self) -> (ret: ((&'a mut T1, &'a mut T2, &'a mut T3, &'a mut T4), R))
        ensures
            ret == self,
    {
        self
    }
}

impl<'a, T1, T2, T3, T4> IntoExtendMutReturn<(&'a mut T1, &'a mut T2, &'a mut T3, &'a mut T4), ()> for (&'a mut T1, &'a mut T2, &'a mut T3, &'a mut T4) {
    fn into_extend_mut_return(self) -> ((&'a mut T1, &'a mut T2, &'a mut T3, &'a mut T4), ())
        returns
            (self, ()),
    {
        (self, ())
    }
}

impl<'a, T1, T2, T3, T4, T5, R> IntoExtendMutReturn<(&'a mut T1, &'a mut T2, &'a mut T3, &'a mut T4, &'a mut T5), R> for ((&'a mut T1, &'a mut T2, &'a mut T3, &'a mut T4, &'a mut T5), R) {
    fn into_extend_mut_return(self) -> (ret: ((&'a mut T1, &'a mut T2, &'a mut T3, &'a mut T4, &'a mut T5), R))
        ensures
            ret == self,
    {
        self
    }
}

impl<'a, T1, T2, T3, T4, T5> IntoExtendMutReturn<(&'a mut T1, &'a mut T2, &'a mut T3, &'a mut T4, &'a mut T5), ()> for (&'a mut T1, &'a mut T2, &'a mut T3, &'a mut T4, &'a mut T5) {
    fn into_extend_mut_return(self) -> ((&'a mut T1, &'a mut T2, &'a mut T3, &'a mut T4, &'a mut T5), ())
        returns
            (self, ()),
    {
        (self, ())
    }
}

impl<'a, T1, T2, T3, T4, T5, T6, R> IntoExtendMutReturn<(&'a mut T1, &'a mut T2, &'a mut T3, &'a mut T4, &'a mut T5, &'a mut T6), R> for ((&'a mut T1, &'a mut T2, &'a mut T3, &'a mut T4, &'a mut T5, &'a mut T6), R) {
    fn into_extend_mut_return(self) -> (ret: ((&'a mut T1, &'a mut T2, &'a mut T3, &'a mut T4, &'a mut T5, &'a mut T6), R))
        ensures
            ret == self,
    {
        self
    }
}

impl<'a, T1, T2, T3, T4, T5, T6> IntoExtendMutReturn<(&'a mut T1, &'a mut T2, &'a mut T3, &'a mut T4, &'a mut T5, &'a mut T6), ()> for (&'a mut T1, &'a mut T2, &'a mut T3, &'a mut T4, &'a mut T5, &'a mut T6) {
    fn into_extend_mut_return(self) -> ((&'a mut T1, &'a mut T2, &'a mut T3, &'a mut T4, &'a mut T5, &'a mut T6), ())
        returns
            (self, ()),
    {
        (self, ())
    }
}

impl<'a, T1, T2, T3, T4, T5, T6, T7, R> IntoExtendMutReturn<(&'a mut T1, &'a mut T2, &'a mut T3, &'a mut T4, &'a mut T5, &'a mut T6, &'a mut T7), R> for ((&'a mut T1, &'a mut T2, &'a mut T3, &'a mut T4, &'a mut T5, &'a mut T6, &'a mut T7), R) {
    fn into_extend_mut_return(self) -> (ret: ((&'a mut T1, &'a mut T2, &'a mut T3, &'a mut T4, &'a mut T5, &'a mut T6, &'a mut T7), R))
        ensures
            ret == self,
    {
        self
    }
}

impl<'a, T1, T2, T3, T4, T5, T6, T7> IntoExtendMutReturn<(&'a mut T1, &'a mut T2, &'a mut T3, &'a mut T4, &'a mut T5, &'a mut T6, &'a mut T7), ()> for (&'a mut T1, &'a mut T2, &'a mut T3, &'a mut T4, &'a mut T5, &'a mut T6, &'a mut T7) {
    fn into_extend_mut_return(self) -> ((&'a mut T1, &'a mut T2, &'a mut T3, &'a mut T4, &'a mut T5, &'a mut T6, &'a mut T7), ())
        returns
            (self, ()),
    {
        (self, ())
    }
}

impl<'a, T1, T2, T3, T4, T5, T6, T7, T8, R> IntoExtendMutReturn<(&'a mut T1, &'a mut T2, &'a mut T3, &'a mut T4, &'a mut T5, &'a mut T6, &'a mut T7, &'a mut T8), R> for ((&'a mut T1, &'a mut T2, &'a mut T3, &'a mut T4, &'a mut T5, &'a mut T6, &'a mut T7, &'a mut T8), R) {
    fn into_extend_mut_return(self) -> (ret: ((&'a mut T1, &'a mut T2, &'a mut T3, &'a mut T4, &'a mut T5, &'a mut T6, &'a mut T7, &'a mut T8), R))
        ensures
            ret == self,
    {
        self
    }
}

impl<'a, T1, T2, T3, T4, T5, T6, T7, T8> IntoExtendMutReturn<(&'a mut T1, &'a mut T2, &'a mut T3, &'a mut T4, &'a mut T5, &'a mut T6, &'a mut T7, &'a mut T8), ()> for (&'a mut T1, &'a mut T2, &'a mut T3, &'a mut T4, &'a mut T5, &'a mut T6, &'a mut T7, &'a mut T8) {
    fn into_extend_mut_return(self) -> ((&'a mut T1, &'a mut T2, &'a mut T3, &'a mut T4, &'a mut T5, &'a mut T6, &'a mut T7, &'a mut T8), ())
        returns
            (self, ()),
    {
        (self, ())
    }
}

impl<'a, T1, T2, T3, T4, T5, T6, T7, T8, T9, R> IntoExtendMutReturn<(&'a mut T1, &'a mut T2, &'a mut T3, &'a mut T4, &'a mut T5, &'a mut T6, &'a mut T7, &'a mut T8, &'a mut T9), R> for ((&'a mut T1, &'a mut T2, &'a mut T3, &'a mut T4, &'a mut T5, &'a mut T6, &'a mut T7, &'a mut T8, &'a mut T9), R) {
    fn into_extend_mut_return(self) -> (ret: ((&'a mut T1, &'a mut T2, &'a mut T3, &'a mut T4, &'a mut T5, &'a mut T6, &'a mut T7, &'a mut T8, &'a mut T9), R))
        ensures
            ret == self,
    {
        self
    }
}

impl<'a, T1, T2, T3, T4, T5, T6, T7, T8, T9> IntoExtendMutReturn<(&'a mut T1, &'a mut T2, &'a mut T3, &'a mut T4, &'a mut T5, &'a mut T6, &'a mut T7, &'a mut T8, &'a mut T9), ()> for (&'a mut T1, &'a mut T2, &'a mut T3, &'a mut T4, &'a mut T5, &'a mut T6, &'a mut T7, &'a mut T8, &'a mut T9) {
    fn into_extend_mut_return(self) -> ((&'a mut T1, &'a mut T2, &'a mut T3, &'a mut T4, &'a mut T5, &'a mut T6, &'a mut T7, &'a mut T8, &'a mut T9), ())
        returns
            (self, ()),
    {
        (self, ())
    }
}

impl<'a, T1, T2, T3, T4, T5, T6, T7, T8, T9, T10, R> IntoExtendMutReturn<(&'a mut T1, &'a mut T2, &'a mut T3, &'a mut T4, &'a mut T5, &'a mut T6, &'a mut T7, &'a mut T8, &'a mut T9, &'a mut T10), R> for ((&'a mut T1, &'a mut T2, &'a mut T3, &'a mut T4, &'a mut T5, &'a mut T6, &'a mut T7, &'a mut T8, &'a mut T9, &'a mut T10), R) {
    fn into_extend_mut_return(self) -> (ret: ((&'a mut T1, &'a mut T2, &'a mut T3, &'a mut T4, &'a mut T5, &'a mut T6, &'a mut T7, &'a mut T8, &'a mut T9, &'a mut T10), R))
        ensures
            ret == self,
    {
        self
    }
}

impl<'a, T1, T2, T3, T4, T5, T6, T7, T8, T9, T10> IntoExtendMutReturn<(&'a mut T1, &'a mut T2, &'a mut T3, &'a mut T4, &'a mut T5, &'a mut T6, &'a mut T7, &'a mut T8, &'a mut T9, &'a mut T10), ()> for (&'a mut T1, &'a mut T2, &'a mut T3, &'a mut T4, &'a mut T5, &'a mut T6, &'a mut T7, &'a mut T8, &'a mut T9, &'a mut T10) {
    fn into_extend_mut_return(self) -> ((&'a mut T1, &'a mut T2, &'a mut T3, &'a mut T4, &'a mut T5, &'a mut T6, &'a mut T7, &'a mut T8, &'a mut T9, &'a mut T10), ())
        returns
            (self, ()),
    {
        (self, ())
    }
}

impl<'a, T1, T2, T3, T4, T5, T6, T7, T8, T9, T10, T11, R> IntoExtendMutReturn<(&'a mut T1, &'a mut T2, &'a mut T3, &'a mut T4, &'a mut T5, &'a mut T6, &'a mut T7, &'a mut T8, &'a mut T9, &'a mut T10, &'a mut T11), R> for ((&'a mut T1, &'a mut T2, &'a mut T3, &'a mut T4, &'a mut T5, &'a mut T6, &'a mut T7, &'a mut T8, &'a mut T9, &'a mut T10, &'a mut T11), R) {
    fn into_extend_mut_return(self) -> (ret: ((&'a mut T1, &'a mut T2, &'a mut T3, &'a mut T4, &'a mut T5, &'a mut T6, &'a mut T7, &'a mut T8, &'a mut T9, &'a mut T10, &'a mut T11), R))
        ensures
            ret == self,
    {
        self
    }
}

impl<'a, T1, T2, T3, T4, T5, T6, T7, T8, T9, T10, T11> IntoExtendMutReturn<(&'a mut T1, &'a mut T2, &'a mut T3, &'a mut T4, &'a mut T5, &'a mut T6, &'a mut T7, &'a mut T8, &'a mut T9, &'a mut T10, &'a mut T11), ()> for (&'a mut T1, &'a mut T2, &'a mut T3, &'a mut T4, &'a mut T5, &'a mut T6, &'a mut T7, &'a mut T8, &'a mut T9, &'a mut T10, &'a mut T11) {
    fn into_extend_mut_return(self) -> ((&'a mut T1, &'a mut T2, &'a mut T3, &'a mut T4, &'a mut T5, &'a mut T6, &'a mut T7, &'a mut T8, &'a mut T9, &'a mut T10, &'a mut T11), ())
        returns
            (self, ()),
    {
        (self, ())
    }
}

impl<'a, T1, T2, T3, T4, T5, T6, T7, T8, T9, T10, T11, T12, R> IntoExtendMutReturn<(&'a mut T1, &'a mut T2, &'a mut T3, &'a mut T4, &'a mut T5, &'a mut T6, &'a mut T7, &'a mut T8, &'a mut T9, &'a mut T10, &'a mut T11, &'a mut T12), R> for ((&'a mut T1, &'a mut T2, &'a mut T3, &'a mut T4, &'a mut T5, &'a mut T6, &'a mut T7, &'a mut T8, &'a mut T9, &'a mut T10, &'a mut T11, &'a mut T12), R) {
    fn into_extend_mut_return(self) -> (ret: ((&'a mut T1, &'a mut T2, &'a mut T3, &'a mut T4, &'a mut T5, &'a mut T6, &'a mut T7, &'a mut T8, &'a mut T9, &'a mut T10, &'a mut T11, &'a mut T12), R))
        ensures
            ret == self,
    {
        self
    }
}

impl<'a, T1, T2, T3, T4, T5, T6, T7, T8, T9, T10, T11, T12> IntoExtendMutReturn<(&'a mut T1, &'a mut T2, &'a mut T3, &'a mut T4, &'a mut T5, &'a mut T6, &'a mut T7, &'a mut T8, &'a mut T9, &'a mut T10, &'a mut T11, &'a mut T12), ()> for (&'a mut T1, &'a mut T2, &'a mut T3, &'a mut T4, &'a mut T5, &'a mut T6, &'a mut T7, &'a mut T8, &'a mut T9, &'a mut T10, &'a mut T11, &'a mut T12) {
    fn into_extend_mut_return(self) -> ((&'a mut T1, &'a mut T2, &'a mut T3, &'a mut T4, &'a mut T5, &'a mut T6, &'a mut T7, &'a mut T8, &'a mut T9, &'a mut T10, &'a mut T11, &'a mut T12), ())
        returns
            (self, ()),
    {
        (self, ())
    }
}

impl<'a, T1, T2, T3, T4, T5, T6, T7, T8, T9, T10, T11, T12, T13, R> IntoExtendMutReturn<(&'a mut T1, &'a mut T2, &'a mut T3, &'a mut T4, &'a mut T5, &'a mut T6, &'a mut T7, &'a mut T8, &'a mut T9, &'a mut T10, &'a mut T11, &'a mut T12, &'a mut T13), R> for ((&'a mut T1, &'a mut T2, &'a mut T3, &'a mut T4, &'a mut T5, &'a mut T6, &'a mut T7, &'a mut T8, &'a mut T9, &'a mut T10, &'a mut T11, &'a mut T12, &'a mut T13), R) {
    fn into_extend_mut_return(self) -> (ret: ((&'a mut T1, &'a mut T2, &'a mut T3, &'a mut T4, &'a mut T5, &'a mut T6, &'a mut T7, &'a mut T8, &'a mut T9, &'a mut T10, &'a mut T11, &'a mut T12, &'a mut T13), R))
        ensures
            ret == self,
    {
        self
    }
}

impl<'a, T1, T2, T3, T4, T5, T6, T7, T8, T9, T10, T11, T12, T13> IntoExtendMutReturn<(&'a mut T1, &'a mut T2, &'a mut T3, &'a mut T4, &'a mut T5, &'a mut T6, &'a mut T7, &'a mut T8, &'a mut T9, &'a mut T10, &'a mut T11, &'a mut T12, &'a mut T13), ()> for (&'a mut T1, &'a mut T2, &'a mut T3, &'a mut T4, &'a mut T5, &'a mut T6, &'a mut T7, &'a mut T8, &'a mut T9, &'a mut T10, &'a mut T11, &'a mut T12, &'a mut T13) {
    fn into_extend_mut_return(self) -> ((&'a mut T1, &'a mut T2, &'a mut T3, &'a mut T4, &'a mut T5, &'a mut T6, &'a mut T7, &'a mut T8, &'a mut T9, &'a mut T10, &'a mut T11, &'a mut T12, &'a mut T13), ())
        returns
            (self, ()),
    {
        (self, ())
    }
}

impl<'a: 'b, 'b, T1: 'b> ExtendMut<'b> for (&'a mut T1,) {
    type Extended = (&'b mut T1,);

    open spec fn sized() -> bool {
        size_of::<T1>() != 0
    }

    open spec fn lends(self, lent: (&'b mut T1,)) -> bool {
        *lent.0 == *self.0
    }

    fn extend_mut<R, ER, F>(self, f: F) -> (ret: Result<R, Violation>)
        where
            ER: IntoExtendMutReturn<(&'b mut T1,), R>,
            F: FnOnce((&'b mut T1,)) -> ER,
        ensures
            !Self::sized() ==> *final(self.0) == *old(self.0),
            Self::sized() ==> exists|
                lent: (&'b mut T1,),
                answer: ER,
                back: (&'b mut T1,),
                payload: R,
            |
                *lent.0 == *old(self.0) && *final(self.0) == *final(lent.0)
                && #[trigger] f.ensures((lent,), answer)
                && #[trigger] call_ensures(ER::into_extend_mut_return, (answer,), (back, payload))
                && *final(back.0) == *back.0
                && (ret == Ok::<R, Violation>(payload)
                    || ret == Err::<R, Violation>(Violation::PointerChanged)),
    {
        if core::mem::size_of::<T1>() == 0 {
            return Err(Violation::ZeroSized);
        }
        let w1 = AddressWitness::new(address_of(self.0));
        let ghost lent = self;
        let answer = f(self);
        let ghost ghost_answer = answer;
        let (back, payload) = answer.into_extend_mut_return();
        let ghost ghost_back = back;
        let ghost ghost_payload = payload;
        let ret = w1.release(address_of(back.0), payload);
        proof {
            assert(f.ensures((lent,), ghost_answer));
            assert(call_ensures(
                ER::into_extend_mut_return,
                (ghost_answer,),
                (ghost_back, ghost_payload),
            ));
        }
        ret
    }
}

impl<'a: 'b, 'b, T1: 'b, T2: 'b> ExtendMut<'b> for (&'a mut T1, &'a mut T2) {
    type Extended = (&'b mut T1, &'b mut T2);

    open spec fn sized() -> bool {
        size_of::<T1>() != 0
        && size_of::<T2>() != 0
    }

    open spec fn lends(self, lent: (&'b mut T1, &'b mut T2)) -> bool {
        *lent.0 == *self.0
        && *lent.1 == *self.1
    }

    fn extend_mut<R, ER, F>(self, f: F) -> (ret: Result<R, Violation>)
        where
            ER: IntoExtendMutReturn<(&'b mut T1, &'b mut T2), R>,
            F: FnOnce((&'b mut T1, &'b mut T2)) -> ER,
        ensures
            !Self::sized() ==> *final(self.0) == *old(self.0)
                && *final(self.1) == *old(self.1),
            Self::sized() ==> exists|
                lent: (&'b mut T1, &'b mut T2),
                answer: ER,
                back: (&'b mut T1, &'b mut T2),
                payload: R,
            |
                *lent.0 == *old(self.0) && *final(self.0) == *final(lent.0)
                && *lent.1 == *old(self.1) && *final(self.1) == *final(lent.1)
                && #[trigger] f.ensures((lent,), answer)
                && #[trigger] call_ensures(ER::into_extend_mut_return, (answer,), (back, payload))
                && *final(back.0) == *back.0
                && *final(back.1) == *back.1
                && (ret == Ok::<R, Violation>(payload)
                    || ret == Err::<R, Violation>(Violation::PointerChanged)),
    {
        if core::mem::size_of::<T1>() == 0
            || core::mem::size_of::<T2>() == 0 {
            return Err(Violation::ZeroSized);
        }
        let w1 = AddressWitness::new(address_of(self.0));
        let w2 = AddressWitness::new(address_of(self.1));
        let ghost lent = self;
        let answer = f(self);
        let ghost ghost_answer = answer;
        let (back, payload) = answer.into_extend_mut_return();
        let ghost ghost_back = back;
        let ghost ghost_payload = payload;
        let ret = w2.release(address_of(back.1), payload);
        let ret = w1.release_if(address_of(back.0), ret);
        proof {
            assert(f.ensures((lent,), ghost_answer));
            assert(call_ensures(
                ER::into_extend_mut_return,
                (ghost_answer,),
                (ghost_back, ghost_payload),
            ));
        }
        ret
    }
}

impl<'a: 'b, 'b, T1: 'b, T2: 'b, T3: 'b> ExtendMut<'b> for (&'a mut T1, &'a mut T2, &'a mut T3) {
    type Extended = (&'b mut T1, &'b mut T2, &'b mut T3);

    open spec fn sized() -> bool {
        size_of::<T1>() != 0
        && size_of::<T2>() != 0
        && size_of::<T3>() != 0
    }

    open spec fn lends(self, lent: (&'b mut T1, &'b mut T2, &'b mut T3)) -> bool {
        *lent.0 == *self.0
        && *lent.1 == *self.1
        && *lent.2 == *self.2
    }

    fn extend_mut<R, ER, F>(self, f: F) -> (ret: Result<R, Violation>)
        where
            ER: IntoExtendMutReturn<(&'b mut T1, &'b mut T2, &'b mut T3), R>,
            F: FnOnce((&'b mut T1, &'b mut T2, &'b mut T3)) -> ER,
        ensures
            !Self::sized() ==> *final(self.0) == *old(self.0)
                && *final(self.1) == *old(self.1)
                && *final(self.2) == *old(self.2),
            Self::sized() ==> exists|
                lent: (&'b mut T1, &'b mut T2, &'b mut T3),
                answer: ER,
                back: (&'b mut T1, &'b mut T2, &'b mut T3),
                payload: R,
            |
                *lent.0 == *old(self.0) && *final(self.0) == *final(lent.0)
                && *lent.1 == *old(self.1) && *final(self.1) == *final(lent.1)
                && *lent.2 == *old(self.2) && *final(self.2) == *final(lent.2)
                && #[trigger] f.ensures((lent,), answer)
                && #[trigger] call_ensures(ER::into_extend_mut_return, (answer,), (back, payload))
                && *final(back.0) == *back.0
                && *final(back.1) == *back.1
                && *final(back.2) == *back.2
                && (ret == Ok::<R, Violation>(payload)
                    || ret == Err::<R, Violation>(Violation::PointerChanged)),
    {
        if core::mem::size_of::<T1>() == 0
            || core::mem::size_of::<T2>() == 0
            || core::mem::size_of::<T3>() == 0 {
            return Err(Violation::ZeroSized);
        }
        let w1 = AddressWitness::new(address_of(self.0));
        let w2 = AddressWitness::new(address_of(self.1));
        let w3 = AddressWitness::new(address_of(self.2));
        let ghost lent = self;
        let answer = f(self);
        let ghost ghost_answer = answer;
        let (back, payload) = answer.into_extend_mut_return();
        let ghost ghost_back = back;
        let ghost ghost_payload = payload;
        let ret = w3.release(address_of(back.2), payload);
        let ret = w2.release_if(address_of(back.1), ret);
        let ret = w1.release_if(address_of(back.0), ret);
        proof {
            assert(f.ensures((lent,), ghost_answer));
            assert(call_ensures(
                ER::into_extend_mut_return,
                (ghost_answer,),
                (ghost_back, ghost_payload),
            ));
        }
        ret
    }
}

impl<'a: 'b, 'b, T1: 'b, T2: 'b, T3: 'b, T4: 'b> ExtendMut<'b> for (&'a mut T1, &'a mut T2, &'a mut T3, &'a mut T4) {
    type Extended = (&'b mut T1, &'b mut T2, &'b mut T3, &'b mut T4);

    open spec fn sized() -> bool {
        size_of::<T1>() != 0
        && size_of::<T2>() != 0
        && size_of::<T3>() != 0
        && size_of::<T4>() != 0
    }

    open spec fn lends(self, lent: (&'b mut T1, &'b mut T2, &'b mut T3, &'b mut T4)) -> bool {
        *lent.0 == *self.0
        && *lent.1 == *self.1
        && *lent.2 == *self.2
        && *lent.3 == *self.3
    }

    fn extend_mut<R, ER, F>(self, f: F) -> (ret: Result<R, Violation>)
        where
            ER: IntoExtendMutReturn<(&'b mut T1, &'b mut T2, &'b mut T3, &'b mut T4), R>,
            F: FnOnce((&'b mut T1, &'b mut T2, &'b mut T3, &'b mut T4)) -> ER,
        ensures
            !Self::sized() ==> *final(self.0) == *old(self.0)
                && *final(self.1) == *old(self.1)
                && *final(self.2) == *old(self.2)
                && *final(self.3) == *old(self.3),
            Self::sized() ==> exists|
                lent: (&'b mut T1, &'b mut T2, &'b mut T3, &'b mut T4),
                answer: ER,
                back: (&'b mut T1, &'b mut T2, &'b mut T3, &'b mut T4),
                payload: R,
            |
                *lent.0 == *old(self.0) && *final(self.0) == *final(lent.0)
                && *lent.1 == *old(self.1) && *final(self.1) == *final(lent.1)
                && *lent.2 == *old(self.2) && *final(self.2) == *final(lent.2)
                && *lent.3 == *old(self.3) && *final(self.3) == *final(lent.3)
                && #[trigger] f.ensures((lent,), answer)
                && #[trigger] call_ensures(ER::into_extend_mut_return, (answer,), (back, payload))
                && *final(back.0) == *back.0
                && *final(back.1) == *back.1
                && *final(back.2) == *back.2
                && *final(back.3) == *back.3
                && (ret == Ok::<R, Violation>(payload)
                    || ret == Err::<R, Violation>(Violation::PointerChanged)),
    {
        if core::mem::size_of::<T1>() == 0
            || core::mem::size_of::<T2>() == 0
            || core::mem::size_of::<T3>() == 0
            || core::mem::size_of::<T4>() == 0 {
            return Err(Violation::ZeroSized);
        }
        let w1 = AddressWitness::new(address_of(self.0));
        let w2 = AddressWitness::new(address_of(self.1));
        let w3 = AddressWitness::new(address_of(self.2));
        let w4 = AddressWitness::new(address_of(self.3));
        let ghost lent = self;
        let answer = f(self);
        let ghost ghost_answer = answer;
        let (back, payload) = answer.into_extend_mut_return();
        let ghost ghost_back = back;
        let ghost ghost_payload = payload;
        let ret = w4.release(address_of(back.3), payload);
        let ret = w3.release_if(address_of(back.2), ret);
        let ret = w2.release_if(address_of(back.1), ret);
        let ret = w1.release_if(address_of(back.0), ret);
        proof {
            assert(f.ensures((lent,), ghost_answer));
            assert(call_ensures(
                ER::into_extend_mut_return,
                (ghost_answer,),
                (ghost_back, ghost_payload),
            ));
        }
        ret
    }
}

impl<'a: 'b, 'b, T1: 'b, T2: 'b, T3: 'b, T4: 'b, T5: 'b> ExtendMut<'b> for (&'a mut T1, &'a mut T2, &'a mut T3, &'a mut T4, &'a mut T5) {
    type Extended = (&'b mut T1, &'b mut T2, &'b mut T3, &'b mut T4, &'b mut T5);

    open spec fn sized() -> bool {
        size_of::<T1>() != 0
        && size_of::<T2>() != 0
        && size_of::<T3>() != 0
        && size_of::<T4>() != 0
        && size_of::<T5>() != 0
    }

    open spec fn lends(self, lent: (&'b mut T1, &'b mut T2, &'b mut T3, &'b mut T4, &'b mut T5)) -> bool {
        *lent.0 == *self.0
        && *lent.1 == *self.1
        && *lent.2 == *self.2
        && *lent.3 == *self.3
        && *lent.4 == *self.4
    }

    fn extend_mut<R, ER, F>(self, f: F) -> (ret: Result<R, Violation>)
        where
            ER: IntoExtendMutReturn<(&'b mut T1, &'b mut T2, &'b mut T3, &'b mut T4, &'b mut T5), R>,
            F: FnOnce((&'b mut T1, &'b mut T2, &'b mut T3, &'b mut T4, &'b mut T5)) -> ER,
        ensures
            !Self::sized() ==> *final(self.0) == *old(self.0)
                && *final(self.1) == *old(self.1)
                && *final(self.2) == *old(self.2)
                && *final(self.3) == *old(self.3)
                && *final(self.4) == *old(self.4),
            Self::sized() ==> exists|
                lent: (&'b mut T1, &'b mut T2, &'b mut T3, &'b mut T4, &'b mut T5),
                answer: ER,
                back: (&'b mut T1, &'b mut T2, &'b mut T3, &'b mut T4, &'b mut T5),
                payload: R,
            |
                *lent.0 == *old(self.0) && *final(self.0) == *final(lent.0)
                && *lent.1 == *old(self.1) && *final(self.1) == *final(lent.1)
                && *lent.2 == *old(self.2) && *final(self.2) == *final(lent.2)
                && *lent.3 == *old(self.3) && *final(self.3) == *final(lent.3)
                && *lent.4 == *old(self.4) && *final(self.4) == *final(lent.4)
                && #[trigger] f.ensures((lent,), answer)
                && #[trigger] call_ensures(ER::into_extend_mut_return, (answer,), (back, payload))
                && *final(back.0) == *back.0
                && *final(back.1) == *back.1
                && *final(back.2) == *back.2
                && *final(back.3) == *back.3
                && *final(back.4) == *back.4
                && (ret == Ok::<R, Violation>(payload)
                    || ret == Err::<R, Violation>(Violation::PointerChanged)),
    {
        if core::mem::size_of::<T1>() == 0
            || core::mem::size_of::<T2>() == 0
            || core::mem::size_of::<T3>() == 0
            || core::mem::size_of::<T4>() == 0
            || core::mem::size_of::<T5>() == 0 {
            return Err(Violation::ZeroSized);
        }
        let w1 = AddressWitness::new(address_of(self.0));
        let w2 = AddressWitness::new(address_of(self.1));
        let w3 = AddressWitness::new(address_of(self.2));
        let w4 = AddressWitness::new(address_of(self.3));
        let w5 = AddressWitness::new(address_of(self.4));
        let ghost lent = self;
        let answer = f(self);
        let ghost ghost_answer = answer;
        let (back, payload) = answer.into_extend_mut_return();
        let ghost ghost_back = back;
        let ghost ghost_payload = payload;
        let ret = w5.release(address_of(back.4), payload);
        let ret = w4.release_if(address_of(back.3), ret);
        let ret = w3.release_if(address_of(back.2), ret);
        let ret = w2.release_if(address_of(back.1), ret);
        let ret = w1.release_if(address_of(back.0), ret);
        proof {
            assert(f.ensures((lent,), ghost_answer));
            assert(call_ensures(
                ER::into_extend_mut_return,
                (ghost_answer,),
                (ghost_back, ghost_payload),
            ));
        }
        ret
    }
}

impl<'a: 'b, 'b, T1: 'b, T2: 'b, T3: 'b, T4: 'b, T5: 'b, T6: 'b> ExtendMut<'b> for (&'a mut T1, &'a mut T2, &'a mut T3, &'a mut T4, &'a mut T5, &'a mut T6) {
    type Extended = (&'b mut T1, &'b mut T2, &'b mut T3, &'b mut T4, &'b mut T5, &'b mut T6);

    open spec fn sized() -> bool {
        size_of::<T1>() != 0
        && size_of::<T2>() != 0
        && size_of::<T3>() != 0
        && size_of::<T4>() != 0
        && size_of::<T5>() != 0
        && size_of::<T6>() != 0
    }

    open spec fn lends(self, lent: (&'b mut T1, &'b mut T2, &'b mut T3, &'b mut T4, &'b mut T5, &'b mut T6)) -> bool {
        *lent.0 == *self.0
        && *lent.1 == *self.1
        && *lent.2 == *self.2
        && *lent.3 == *self.3
        && *lent.4 == *self.4
        && *lent.5 == *self.5
    }

    fn extend_mut<R, ER, F>(self, f: F) -> (ret: Result<R, Violation>)
        where
            ER: IntoExtendMutReturn<(&'b mut T1, &'b mut T2, &'b mut T3, &'b mut T4, &'b mut T5, &'b mut T6), R>,
            F: FnOnce((&'b mut T1, &'b mut T2, &'b mut T3, &'b mut T4, &'b mut T5, &'b mut T6)) -> ER,
        ensures
            !Self::sized() ==> *final(self.0) == *old(self.0)
                && *final(self.1) == *old(self.1)
                && *final(self.2) == *old(self.2)
                && *final(self.3) == *old(self.3)
                && *final(self.4) == *old(self.4)
                && *final(self.5) == *old(self.5),
            Self::sized() ==> exists|
                lent: (&'b mut T1, &'b mut T2, &'b mut T3, &'b mut T4, &'b mut T5, &'b mut T6),
                answer: ER,
                back: (&'b mut T1, &'b mut T2, &'b mut T3, &'b mut T4, &'b mut T5, &'b mut T6),
                payload: R,
            |
                *lent.0 == *old(self.0) && *final(self.0) == *final(lent.0)
                && *lent.1 == *old(self.1) && *final(self.1) == *final(lent.1)
                && *lent.2 == *old(self.2) && *final(self.2) == *final(lent.2)
                && *lent.3 == *old(self.3) && *final(self.3) == *final(lent.3)
                && *lent.4 == *old(self.4) && *final(self.4) == *final(lent.4)
                && *lent.5 == *old(self.5) && *final(self.5) == *final(lent.5)
                && #[trigger] f.ensures((lent,), answer)
                && #[trigger] call_ensures(ER::into_extend_mut_return, (answer,), (back, payload))
                && *final(back.0) == *back.0
                && *final(back.1) == *back.1
                && *final(back.2) == *back.2
                && *final(back.3) == *back.3
                && *final(back.4) == *back.4
                && *final(back.5) == *back.5
                && (ret == Ok::<R, Violation>(payload)
                    || ret == Err::<R, Violation>(Violation::PointerChanged)),
    {
        if core::mem::size_of::<T1>() == 0
            || core::mem::size_of::<T2>() == 0
            || core::mem::size_of::<T3>() == 0
            || core::mem::size_of::<T4>() == 0
            || core::mem::size_of::<T5>() == 0
            || core::mem::size_of::<T6>() == 0 {
            return Err(Violation::ZeroSized);
        }
        let w1 = AddressWitness::new(address_of(self.0));
        let w2 = AddressWitness::new(address_of(self.1));
        let w3 = AddressWitness::new(address_of(self.2));
        let w4 = AddressWitness::new(address_of(self.3));
        let w5 = AddressWitness::new(address_of(self.4));
        let w6 = AddressWitness::new(address_of(self.5));
        let ghost lent = self;
        let answer = f(self);
        let ghost ghost_answer = answer;
        let (back, payload) = answer.into_extend_mut_return();
        let ghost ghost_back = back;
        let ghost ghost_payload = payload;
        let ret = w6.release(address_of(back.5), payload);
        let ret = w5.release_if(address_of(back.4), ret);
        let ret = w4.release_if(address_of(back.3), ret);
        let ret = w3.release_if(address_of(back.2), ret);
        let ret = w2.release_if(address_of(back.1), ret);
        let ret = w1.release_if(address_of(back.0), ret);
        proof {
            assert(f.ensures((lent,), ghost_answer));
            assert(call_ensures(
                ER::into_extend_mut_return,
                (ghost_answer,),
                (ghost_back, ghost_payload),
            ));
        }
        ret
    }
}

impl<'a: 'b, 'b, T1: 'b, T2: 'b, T3: 'b, T4: 'b, T5: 'b, T6: 'b, T7: 'b> ExtendMut<'b> for (&'a mut T1, &'a mut T2, &'a mut T3, &'a mut T4, &'a mut T5, &'a mut T6, &'a mut T7) {
    type Extended = (&'b mut T1, &'b mut T2, &'b mut T3, &'b mut T4, &'b mut T5, &'b mut T6, &'b mut T7);

    open spec fn sized() -> bool {
        size_of::<T1>() != 0
        && size_of::<T2>() != 0
        && size_of::<T3>() != 0
        && size_of::<T4>() != 0
        && size_of::<T5>() != 0
        && size_of::<T6>() != 0
        && size_of::<T7>() != 0
    }

    open spec fn lends(self, lent: (&'b mut T1, &'b mut T2, &'b mut T3, &'b mut T4, &'b mut T5, &'b mut T6, &'b mut T7)) -> bool {
        *lent.0 == *self.0
        && *lent.1 == *self.1
        && *lent.2 == *self.2
        && *lent.3 == *self.3
        && *lent.4 == *self.4
        && *lent.5 == *self.5
        && *lent.6 == *self.6
    }

    fn extend_mut<R, ER, F>(self, f: F) -> (ret: Result<R, Violation>)
        where
            ER: IntoExtendMutReturn<(&'b mut T1, &'b mut T2, &'b mut T3, &'b mut T4, &'b mut T5, &'b mut T6, &'b mut T7), R>,
            F: FnOnce((&'b mut T1, &'b mut T2, &'b mut T3, &'b mut T4, &'b mut T5, &'b mut T6, &'b mut T7)) -> ER,
        ensures
            !Self::sized() ==> *final(self.0) == *old(self.0)
                && *final(self.1) == *old(self.1)
                && *final(self.2) == *old(self.2)
                && *final(self.3) == *old(self.3)
                && *final(self.4) == *old(self.4)
                && *final(self.5) == *old(self.5)
                && *final(self.6) == *old(self.6),
            Self::sized() ==> exists|
                lent: (&'b mut T1, &'b mut T2, &'b mut T3, &'b mut T4, &'b mut T5, &'b mut T6, &'b mut T7),
                answer: ER,
                back: (&'b mut T1, &'b mut T2, &'b mut T3, &'b mut T4, &'b mut T5, &'b mut T6, &'b mut T7),
                payload: R,
            |
                *lent.0 == *old(self.0) && *final(self.0) == *final(lent.0)
                && *lent.1 == *old(self.1) && *final(self.1) == *final(lent.1)
                && *lent.2 == *old(self.2) && *final(self.2) == *final(lent.2)
                && *lent.3 == *old(self.3) && *final(self.3) == *final(lent.3)
                && *lent.4 == *old(self.4) && *final(self.4) == *final(lent.4)
                && *lent.5 == *old(self.5) && *final(self.5) == *final(lent.5)
                && *lent.6 == *old(self.6) && *final(self.6) == *final(lent.6)
                && #[trigger] f.ensures((lent,), answer)
                && #[trigger] call_ensures(ER::into_extend_mut_return, (answer,), (back, payload))
                && *final(back.0) == *back.0
                && *final(back.1) == *back.1
                && *final(back.2) == *back.2
                && *final(back.3) == *back.3
                && *final(back.4) == *back.4
                && *final(back.5) == *back.5
                && *final(back.6) == *back.6
                && (ret == Ok::<R, Violation>(payload)
                    || ret == Err::<R, Violation>(Violation::PointerChanged)),
    {
        if core::mem::size_of::<T1>() == 0
            || core::mem::size_of::<T2>() == 0
            || core::mem::size_of::<T3>() == 0
            || core::mem::size_of::<T4>() == 0
            || core::mem::size_of::<T5>() == 0
            || core::mem::size_of::<T6>() == 0
            || core::mem::size_of::<T7>() == 0 {
            return Err(Violation::ZeroSized);
        }
        let w1 = AddressWitness::new(address_of(self.0));
        let w2 = AddressWitness::new(address_of(self.1));
        let w3 = AddressWitness::new(address_of(self.2));
        let w4 = AddressWitness::new(address_of(self.3));
        let w5 = AddressWitness::new(address_of(self.4));
        let w6 = AddressWitness::new(address_of(self.5));
        let w7 = AddressWitness::new(address_of(self.6));
        let ghost lent = self;
        let answer = f(self);
        let ghost ghost_answer = answer;
        let (back, payload) = answer.into_extend_mut_return();
        let ghost ghost_back = back;
        let ghost ghost_payload = payload;
        let ret = w7.release(address_of(back.6), payload);
        let ret = w6.release_if(address_of(back.5), ret);
        let ret = w5.release_if(address_of(back.4), ret);
        let ret = w4.release_if(address_of(back.3), ret);
        let ret = w3.release_if(address_of(back.2), ret);
        let ret = w2.release_if(address_of(back.1), ret);
        let ret = w1.release_if(address_of(back.0), ret);
        proof {
            assert(f.ensures((lent,), ghost_answer));
            assert(call_ensures(
                ER::into_extend_mut_return,
                (ghost_answer,),
                (ghost_back, ghost_payload),
            ));
        }
        ret
    }
}

impl<'a: 'b, 'b, T1: 'b, T2: 'b, T3: 'b, T4: 'b, T5: 'b, T6: 'b, T7: 'b, T8: 'b> ExtendMut<'b> for (&'a mut T1, &'a mut T2, &'a mut T3, &'a mut T4, &'a mut T5, &'a mut T6, &'a mut T7, &'a mut T8) {
    type Extended = (&'b mut T1, &'b mut T2, &'b mut T3, &'b mut T4, &'b mut T5, &'b mut T6, &'b mut T7, &'b mut T8);

    open spec fn sized() -> bool {
        size_of::<T1>() != 0
        && size_of::<T2>() != 0
        && size_of::<T3>() != 0
        && size_of::<T4>() != 0
        && size_of::<T5>() != 0
        && size_of::<T6>() != 0
        && size_of::<T7>() != 0
        && size_of::<T8>() != 0
    }

    open spec fn lends(self, lent: (&'b mut T1, &'b mut T2, &'b mut T3, &'b mut T4, &'b mut T5, &'b mut T6, &'b mut T7, &'b mut T8)) -> bool {
        *lent.0 == *self.0
        && *lent.1 == *self.1
        && *lent.2 == *self.2
        && *lent.3 == *self.3
        && *lent.4 == *self.4
        && *lent.5 == *self.5
        && *lent.6 == *self.6
        && *lent.7 == *self.7
    }

    fn extend_mut<R, ER, F>(self, f: F) -> (ret: Result<R, Violation>)
        where
            ER: IntoExtendMutReturn<(&'b mut T1, &'b mut T2, &'b mut T3, &'b mut T4, &'b mut T5, &'b mut T6, &'b mut T7, &'b mut T8), R>,
            F: FnOnce((&'b mut T1, &'b mut T2, &'b mut T3, &'b mut T4, &'b mut T5, &'b mut T6, &'b mut T7, &'b mut T8)) -> ER,
        ensures
            !Self::sized() ==> *final(self.0) == *old(self.0)
                && *final(self.1) == *old(self.1)
                && *final(self.2) == *old(self.2)
                && *final(self.3) == *old(self.3)
                && *final(self.4) == *old(self.4)
                && *final(self.5) == *old(self.5)
                && *final(self.6) == *old(self.6)
                && *final(self.7) == *old(self.7),
            Self::sized() ==> exists|
                lent: (&'b mut T1, &'b mut T2, &'b mut T3, &'b mut T4, &'b mut T5, &'b mut T6, &'b mut T7, &'b mut T8),
                answer: ER,
                back: (&'b mut T1, &'b mut T2, &'b mut T3, &'b mut T4, &'b mut T5, &'b mut T6, &'b mut T7, &'b mut T8),
                payload: R,
            |
                *lent.0 == *old(self.0) && *final(self.0) == *final(lent.0)
                && *lent.1 == *old(self.1) && *final(self.1) == *final(lent.1)
                && *lent.2 == *old(self.2) && *final(self.2) == *final(lent.2)
                && *lent.3 == *old(self.3) && *final(self.3) == *final(lent.3)
                && *lent.4 == *old(self.4) && *final(self.4) == *final(lent.4)
                && *lent.5 == *old(self.5) && *final(self.5) == *final(lent.5)
                && *lent.6 == *old(self.6) && *final(self.6) == *final(lent.6)
                && *lent.7 == *old(self.7) && *final(self.7) == *final(lent.7)
                && #[trigger] f.ensures((lent,), answer)
                && #[trigger] call_ensures(ER::into_extend_mut_return, (answer,), (back, payload))
                && *final(back.0) == *back.0
                && *final(back.1) == *back.1
                && *final(back.2) == *back.2
                && *final(back.3) == *back.3
                && *final(back.4) == *back.4
                && *final(back.5) == *back.5
                && *final(back.6) == *back.6
                && *final(back.7) == *back.7
                && (ret == Ok::<R, Violation>(payload)
                    || ret == Err::<R, Violation>(Violation::PointerChanged)),
    {
        if core::mem::size_of::<T1>() == 0
            || core::mem::size_of::<T2>() == 0
            || core::mem::size_of::<T3>() == 0
            || core::mem::size_of::<T4>() == 0
            || core::mem::size_of::<T5>() == 0
            || core::mem::size_of::<T6>() == 0
            || core::mem::size_of::<T7>() == 0
            || core::mem::size_of::<T8>() == 0 {
            return Err(Violation::ZeroSized);
        }
        let w1 = AddressWitness::new(address_of(self.0));
        let w2 = AddressWitness::new(address_of(self.1));
        let w3 = AddressWitness::new(address_of(self.2));
        let w4 = AddressWitness::new(address_of(self.3));
        let w5 = AddressWitness::new(address_of(self.4));
        let w6 = AddressWitness::new(address_of(self.5));
        let w7 = AddressWitness::new(address_of(self.6));
        let w8 = AddressWitness::new(address_of(self.7));
        let ghost lent = self;
        let answer = f(self);
        let ghost ghost_answer = answer;
        let (back, payload) = answer.into_extend_mut_return();
        let ghost ghost_back = back;
        let ghost ghost_payload = payload;
        let ret = w8.release(address_of(back.7), payload);
        let ret = w7.release_if(address_of(back.6), ret);
        let ret = w6.release_if(address_of(back.5), ret);
        let ret = w5.release_if(address_of(back.4), ret);
        let ret = w4.release_if(address_of(back.3), ret);
        let ret = w3.release_if(address_of(back.2), ret);
        let ret = w2.release_if(address_of(back.1), ret);
        let ret = w1.release_if(address_of(back.0), ret);
        proof {
            assert(f.ensures((lent,), ghost_answer));
            assert(call_ensures(
                ER::into_extend_mut_return,
                (ghost_answer,),
                (ghost_back, ghost_payload),
            ));
        }
        ret
    }
}

impl<'a: 'b, 'b, T1: 'b, T2: 'b, T3: 'b, T4: 'b, T5: 'b, T6: 'b, T7: 'b, T8: 'b, T9: 'b> ExtendMut<'b> for (&'a mut T1, &'a mut T2, &'a mut T3, &'a mut T4, &'a mut T5, &'a mut T6, &'a mut T7, &'a mut T8, &'a mut T9) {
    type Extended = (&'b mut T1, &'b mut T2, &'b mut T3, &'b mut T4, &'b mut T5, &'b mut T6, &'b mut T7, &'b mut T8, &'b mut T9);

    open spec fn sized() -> bool {
        size_of::<T1>() != 0
        && size_of::<T2>() != 0
        && size_of::<T3>() != 0
        && size_of::<T4>() != 0
        && size_of::<T5>() != 0
        && size_of::<T6>() != 0
        && size_of::<T7>() != 0
        && size_of::<T8>() != 0
        && size_of::<T9>() != 0
    }

    open spec fn lends(self, lent: (&'b mut T1, &'b mut T2, &'b mut T3, &'b mut T4, &'b mut T5, &'b mut T6, &'b mut T7, &'b mut T8, &'b mut T9)) -> bool {
        *lent.0 == *self.0
        && *lent.1 == *self.1
        && *lent.2 == *self.2
        && *lent.3 == *self.3
        && *lent.4 == *self.4
        && *lent.5 == *self.5
        && *lent.6 == *self.6
        && *lent.7 == *self.7
        && *lent.8 == *self.8
    }

    fn extend_mut<R, ER, F>(self, f: F) -> (ret: Result<R, Violation>)
        where
            ER: IntoExtendMutReturn<(&'b mut T1, &'b mut T2, &'b mut T3, &'b mut T4, &'b mut T5, &'b mut T6, &'b mut T7, &'b mut T8, &'b mut T9), R>,
            F: FnOnce((&'b mut T1, &'b mut T2, &'b mut T3, &'b mut T4, &'b mut T5, &'b mut T6, &'b mut T7, &'b mut T8, &'b mut T9)) -> ER,
        ensures
            !Self::sized() ==> *final(self.0) == *old(self.0)
                && *final(self.1) == *old(self.1)
                && *final(self.2) == *old(self.2)
                && *final(self.3) == *old(self.3)
                && *final(self.4) == *old(self.4)
                && *final(self.5) == *old(self.5)
                && *final(self.6) == *old(self.6)
                && *final(self.7) == *old(self.7)
                && *final(self.8) == *old(self.8),
            Self::sized() ==> exists|
                lent: (&'b mut T1, &'b mut T2, &'b mut T3, &'b mut T4, &'b mut T5, &'b mut T6, &'b mut T7, &'b mut T8, &'b mut T9),
                answer: ER,
                back: (&'b mut T1, &'b mut T2, &'b mut T3, &'b mut T4, &'b mut T5, &'b mut T6, &'b mut T7, &'b mut T8, &'b mut T9),
                payload: R,
            |
                *lent.0 == *old(self.0) && *final(self.0) == *final(lent.0)
                && *lent.1 == *old(self.1) && *final(self.1) == *final(lent.1)
                && *lent.2 == *old(self.2) && *final(self.2) == *final(lent.2)
                && *lent.3 == *old(self.3) && *final(self.3) == *final(lent.3)
                && *lent.4 == *old(self.4) && *final(self.4) == *final(lent.4)
                && *lent.5 == *old(self.5) && *final(self.5) == *final(lent.5)
                && *lent.6 == *old(self.6) && *final(self.6) == *final(lent.6)
                && *lent.7 == *old(self.7) && *final(self.7) == *final(lent.7)
                && *lent.8 == *old(self.8) && *final(self.8) == *final(lent.8)
                && #[trigger] f.ensures((lent,), answer)
                && #[trigger] call_ensures(ER::into_extend_mut_return, (answer,), (back, payload))
                && *final(back.0) == *back.0
                && *final(back.1) == *back.1
                && *final(back.2) == *back.2
                && *final(back.3) == *back.3
                && *final(back.4) == *back.4
                && *final(back.5) == *back.5
                && *final(back.6) == *back.6
                && *final(back.7) == *back.7
                && *final(back.8) == *back.8
                && (ret == Ok::<R, Violation>(payload)
                    || ret == Err::<R, Violation>(Violation::PointerChanged)),
    {
        if core::mem::size_of::<T1>() == 0
            || core::mem::size_of::<T2>() == 0
            || core::mem::size_of::<T3>() == 0
            || core::mem::size_of::<T4>() == 0
            || core::mem::size_of::<T5>() == 0
            || core::mem::size_of::<T6>() == 0
            || core::mem::size_of::<T7>() == 0
            || core::mem::size_of::<T8>() == 0
            || core::mem::size_of::<T9>() == 0 {
            return Err(Violation::ZeroSized);
        }
        let w1 = AddressWitness::new(address_of(self.0));
        let w2 = AddressWitness::new(address_of(self.1));
        let w3 = AddressWitness::new(address_of(self.2));
        let w4 = AddressWitness::new(address_of(self.3));
        let w5 = AddressWitness::new(address_of(self.4));
        let w6 = AddressWitness::new(address_of(self.5));
        let w7 = AddressWitness::new(address_of(self.6));
        let w8 = AddressWitness::new(address_of(self.7));
        let w9 = AddressWitness::new(address_of(self.8));
        let ghost lent = self;
        let answer = f(self);
        let ghost ghost_answer = answer;
        let (back, payload) = answer.into_extend_mut_return();
        let ghost ghost_back = back;
        let ghost ghost_payload = payload;
        let ret = w9.release(address_of(back.8), payload);
        let ret = w8.release_if(address_of(back.7), ret);
        let ret = w7.release_if(address_of(back.6), ret);
        let ret = w6.release_if(address_of(back.5), ret);
        let ret = w5.release_if(address_of(back.4), ret);
        let ret = w4.release_if(address_of(back.3), ret);
        let ret = w3.release_if(address_of(back.2), ret);
        let ret = w2.release_if(address_of(back.1), ret);
        let ret = w1.release_if(address_of(back.0), ret);
        proof {
            assert(f.ensures((lent,), ghost_answer));
            assert(call_ensures(
                ER::into_extend_mut_return,
                (ghost_answer,),
                (ghost_back, ghost_payload),
            ));
        }
        ret
    }
}

impl<'a: 'b, 'b, T1: 'b, T2: 'b, T3: 'b, T4: 'b, T5: 'b, T6: 'b, T7: 'b, T8: 'b, T9: 'b, T10: 'b> ExtendMut<'b> for (&'a mut T1, &'a mut T2, &'a mut T3, &'a mut T4, &'a mut T5, &'a mut T6, &'a mut T7, &'a mut T8, &'a mut T9, &'a mut T10) {
    type Extended = (&'b mut T1, &'b mut T2, &'b mut T3, &'b mut T4, &'b mut T5, &'b mut T6, &'b mut T7, &'b mut T8, &'b mut T9, &'b mut T10);

    open spec fn sized() -> bool {
        size_of::<T1>() != 0
        && size_of::<T2>() != 0
        && size_of::<T3>() != 0
        && size_of::<T4>() != 0
        && size_of::<T5>() != 0
        && size_of::<T6>() != 0
        && size_of::<T7>() != 0
        && size_of::<T8>() != 0
        && size_of::<T9>() != 0
        && size_of::<T10>() != 0
    }

    open spec fn lends(self, lent: (&'b mut T1, &'b mut T2, &'b mut T3, &'b mut T4, &'b mut T5, &'b mut T6, &'b mut T7, &'b mut T8, &'b mut T9, &'b mut T10)) -> bool {
        *lent.0 == *self.0
        && *lent.1 == *self.1
        && *lent.2 == *self.2
        && *lent.3 == *self.3
        && *lent.4 == *self.4
        && *lent.5 == *self.5
        && *lent.6 == *self.6
        && *lent.7 == *self.7
        && *lent.8 == *self.8
        && *lent.9 == *self.9
    }

    fn extend_mut<R, ER, F>(self, f: F) -> (ret: Result<R, Violation>)
        where
            ER: IntoExtendMutReturn<(&'b mut T1, &'b mut T2, &'b mut T3, &'b mut T4, &'b mut T5, &'b mut T6, &'b mut T7, &'b mut T8, &'b mut T9, &'b mut T10), R>,
            F: FnOnce((&'b mut T1, &'b mut T2, &'b mut T3, &'b mut T4, &'b mut T5, &'b mut T6, &'b mut T7, &'b mut T8, &'b mut T9, &'b mut T10)) -> ER,
        ensures
            !Self::sized() ==> *final(self.0) == *old(self.0)
                && *final(self.1) == *old(self.1)
                && *final(self.2) == *old(self.2)
                && *final(self.3) == *old(self.3)
                && *final(self.4) == *old(self.4)
                && *final(self.5) == *old(self.5)
                && *final(self.6) == *old(self.6)
                && *final(self.7) == *old(self.7)
                && *final(self.8) == *old(self.8)
                && *final(self.9) == *old(self.9),
            Self::sized() ==> exists|
                lent: (&'b mut T1, &'b mut T2, &'b mut T3, &'b mut T4, &'b mut T5, &'b mut T6, &'b mut T7, &'b mut T8, &'b mut T9, &'b mut T10),
                answer: ER,
                back: (&'b mut T1, &'b mut T2, &'b mut T3, &'b mut T4, &'b mut T5, &'b mut T6, &'b mut T7, &'b mut T8, &'b mut T9, &'b mut T10),
                payload: R,
            |
                *lent.0 == *old(self.0) && *final(self.0) == *final(lent.0)
                && *lent.1 == *old(self.1) && *final(self.1) == *final(lent.1)
                && *lent.2 == *old(self.2) && *final(self.2) == *final(lent.2)
                && *lent.3 == *old(self.3) && *final(self.3) == *final(lent.3)
                && *lent.4 == *old(self.4) && *final(self.4) == *final(lent.4)
                && *lent.5 == *old(self.5) && *final(self.5) == *final(lent.5)
                && *lent.6 == *old(self.6) && *final(self.6) == *final(lent.6)
                && *lent.7 == *old(self.7) && *final(self.7) == *final(lent.7)
                && *lent.8 == *old(self.8) && *final(self.8) == *final(lent.8)
                && *lent.9 == *old(self.9) && *final(self.9) == *final(lent.9)
                && #[trigger] f.ensures((lent,), answer)
                && #[trigger] call_ensures(ER::into_extend_mut_return, (answer,), (back, payload))
                && *final(back.0) == *back.0
                && *final(back.1) == *back.1
                && *final(back.2) == *back.2
                && *final(back.3) == *back.3
                && *final(back.4) == *back.4
                && *final(back.5) == *back.5
                && *final(back.6) == *back.6
                && *final(back.7) == *back.7
                && *final(back.8) == *back.8
                && *final(back.9) == *back.9
                && (ret == Ok::<R, Violation>(payload)
                    || ret == Err::<R, Violation>(Violation::PointerChanged)),
    {
        if core::mem::size_of::<T1>() == 0
            || core::mem::size_of::<T2>() == 0
            || core::mem::size_of::<T3>() == 0
            || core::mem::size_of::<T4>() == 0
            || core::mem::size_of::<T5>() == 0
            || core::mem::size_of::<T6>() == 0
            || core::mem::size_of::<T7>() == 0
            || core::mem::size_of::<T8>() == 0
            || core::mem::size_of::<T9>() == 0
            || core::mem::size_of::<T10>() == 0 {
            return Err(Violation::ZeroSized);
        }
        let w1 = AddressWitness::new(address_of(self.0));
        let w2 = AddressWitness::new(address_of(self.1));
        let w3 = AddressWitness::new(address_of(self.2));
        let w4 = AddressWitness::new(address_of(self.3));
        let w5 = AddressWitness::new(address_of(self.4));
        let w6 = AddressWitness::new(address_of(self.5));
        let w7 = AddressWitness::new(address_of(self.6));
        let w8 = AddressWitness::new(address_of(self.7));
        let w9 = AddressWitness::new(address_of(self.8));
        let w10 = AddressWitness::new(address_of(self.9));
        let ghost lent = self;
        let answer = f(self);
        let ghost ghost_answer = answer;
        let (back, payload) = answer.into_extend_mut_return();
        let ghost ghost_back = back;
        let ghost ghost_payload = payload;
        let ret = w10.release(address_of(back.9), payload);
        let ret = w9.release_if(address_of(back.8), ret);
        let ret = w8.release_if(address_of(back.7), ret);
        let ret = w7.release_if(address_of(back.6), ret);
        let ret = w6.release_if(address_of(back.5), ret);
        let ret = w5.release_if(address_of(back.4), ret);
        let ret = w4.release_if(address_of(back.3), ret);
        let ret = w3.release_if(address_of(back.2), ret);
        let ret = w2.release_if(address_of(back.1), ret);
        let ret = w1.release_if(address_of(back.0), ret);
        proof {
            assert(f.ensures((lent,), ghost_answer));
            assert(call_ensures(
                ER::into_extend_mut_return,
                (ghost_answer,),
                (ghost_back, ghost_payload),
            ));
        }
        ret
    }
}

impl<'a: 'b, 'b, T1: 'b, T2: 'b, T3: 'b, T4: 'b, T5: 'b, T6: 'b, T7: 'b, T8: 'b, T9: 'b, T10: 'b, T11: 'b> ExtendMut<'b> for (&'a mut T1, &'a mut T2, &'a mut T3, &'a mut T4, &'a mut T5, &'a mut T6, &'a mut T7, &'a mut T8, &'a mut T9, &'a mut T10, &'a mut T11) {
    type Extended = (&'b mut T1, &'b mut T2, &'b mut T3, &'b mut T4, &'b mut T5, &'b mut T6, &'b mut T7, &'b mut T8, &'b mut T9, &'b mut T10, &'b mut T11);

    open spec fn sized() -> bool {
        size_of::<T1>() != 0
        && size_of::<T2>() != 0
        && size_of::<T3>() != 0
        && size_of::<T4>() != 0
        && size_of::<T5>() != 0
        && size_of::<T6>() != 0
        && size_of::<T7>() != 0
        && size_of::<T8>() != 0
        && size_of::<T9>() != 0
        && size_of::<T10>() != 0
        && size_of::<T11>() != 0
    }

    open spec fn lends(self, lent: (&'b mut T1, &'b mut T2, &'b mut T3, &'b mut T4, &'b mut T5, &'b mut T6, &'b mut T7, &'b mut T8, &'b mut T9, &'b mut T10, &'b mut T11)) -> bool {
        *lent.0 == *self.0
        && *lent.1 == *self.1
        && *lent.2 == *self.2
        && *lent.3 == *self.3
        && *lent.4 == *self.4
        && *lent.5 == *self.5
        && *lent.6 == *self.6
        && *lent.7 == *self.7
        && *lent.8 == *self.8
        && *lent.9 == *self.9
        && *lent.10 == *self.10
    }

    fn extend_mut<R, ER, F>(self, f: F) -> (ret: Result<R, Violation>)
        where
            ER: IntoExtendMutReturn<(&'b mut T1, &'b mut T2, &'b mut T3, &'b mut T4, &'b mut T5, &'b mut T6, &'b mut T7, &'b mut T8, &'b mut T9, &'b mut T10, &'b mut T11), R>,
            F: FnOnce((&'b mut T1, &'b mut T2, &'b mut T3, &'b mut T4, &'b mut T5, &'b mut T6, &'b mut T7, &'b mut T8, &'b mut T9, &'b mut T10, &'b mut T11)) -> ER,
        ensures
            !Self::sized() ==> *final(self.0) == *old(self.0)
                && *final(self.1) == *old(self.1)
                && *final(self.2) == *old(self.2)
                && *final(self.3) == *old(self.3)
                && *final(self.4) == *old(self.4)
                && *final(self.5) == *old(self.5)
                && *final(self.6) == *old(self.6)
                && *final(self.7) == *old(self.7)
                && *final(self.8) == *old(self.8)
                && *final(self.9) == *old(self.9)
                && *final(self.10) == *old(self.10),
            Self::sized() ==> exists|
                lent: (&'b mut T1, &'b mut T2, &'b mut T3, &'b mut T4, &'b mut T5, &'b mut T6, &'b mut T7, &'b mut T8, &'b mut T9, &'b mut T10, &'b mut T11),
                answer: ER,
                back: (&'b mut T1, &'b mut T2, &'b mut T3, &'b mut T4, &'b mut T5, &'b mut T6, &'b mut T7, &'b mut T8, &'b mut T9, &'b mut T10, &'b mut T11),
                payload: R,
            |
                *lent.0 == *old(self.0) && *final(self.0) == *final(lent.0)
                && *lent.1 == *old(self.1) && *final(self.1) == *final(lent.1)
                && *lent.2 == *old(self.2) && *final(self.2) == *final(lent.2)
                && *lent.3 == *old(self.3) && *final(self.3) == *final(lent.3)
                && *lent.4 == *old(self.4) && *final(self.4) == *final(lent.4)
                && *lent.5 == *old(self.5) && *final(self.5) == *final(lent.5)
                && *lent.6 == *old(self.6) && *final(self.6) == *final(lent.6)
                && *lent.7 == *old(self.7) && *final(self.7) == *final(lent.7)
                && *lent.8 == *old(self.8) && *final(self.8) == *final(lent.8)
                && *lent.9 == *old(self.9) && *final(self.9) == *final(lent.9)
                && *lent.10 == *old(self.10) && *final(self.10) == *final(lent.10)
                && #[trigger] f.ensures((lent,), answer)
                && #[trigger] call_ensures(ER::into_extend_mut_return, (answer,), (back, payload))
                && *final(back.0) == *back.0
                && *final(back.1) == *back.1
                && *final(back.2) == *back.2
                && *final(back.3) == *back.3
                && *final(back.4) == *back.4
                && *final(back.5) == *back.5
                && *final(back.6) == *back.6
                && *final(back.7) == *back.7
                && *final(back.8) == *back.8
                && *final(back.9) == *back.9
                && *final(back.10) == *back.10
                && (ret == Ok::<R, Violation>(payload)
                    || ret == Err::<R, Violation>(Violation::PointerChanged)),
    {
        if core::mem::size_of::<T1>() == 0
            || core::mem::size_of::<T2>() == 0
            || core::mem::size_of::<T3>() == 0
            || core::mem::size_of::<T4>() == 0
            || core::mem::size_of::<T5>() == 0
            || core::mem::size_of::<T6>() == 0
            || core::mem::size_of::<T7>() == 0
            || core::mem::size_of::<T8>() == 0
            || core::mem::size_of::<T9>() == 0
            || core::mem::size_of::<T10>() == 0
            || core::mem::size_of::<T11>() == 0 {
            return Err(Violation::ZeroSized);
        }
        let w1 = AddressWitness::new(address_of(self.0));
        let w2 = AddressWitness::new(address_of(self.1));
        let w3 = AddressWitness::new(address_of(self.2));
        let w4 = AddressWitness::new(address_of(self.3));
        let w5 = AddressWitness::new(address_of(self.4));
        let w6 = AddressWitness::new(address_of(self.5));
        let w7 = AddressWitness::new(address_of(self.6));
        let w8 = AddressWitness::new(address_of(self.7));
        let w9 = AddressWitness::new(address_of(self.8));
        let w10 = AddressWitness::new(address_of(self.9));
        let w11 = AddressWitness::new(address_of(self.10));
        let ghost lent = self;
        let answer = f(self);
        let ghost ghost_answer = answer;
        let (back, payload) = answer.into_extend_mut_return();
        let ghost ghost_back = back;
        let ghost ghost_payload = payload;
        let ret = w11.release(address_of(back.10), payload);
        let ret = w10.release_if(address_of(back.9), ret);
        let ret = w9.release_if(address_of(back.8), ret);
        let ret = w8.release_if(address_of(back.7), ret);
        let ret = w7.release_if(address_of(back.6), ret);
        let ret = w6.release_if(address_of(back.5), ret);
        let ret = w5.release_if(address_of(back.4), ret);
        let ret = w4.release_if(address_of(back.3), ret);
        let ret = w3.release_if(address_of(back.2), ret);
        let ret = w2.release_if(address_of(back.1), ret);
        let ret = w1.release_if(address_of(back.0), ret);
        proof {
            assert(f.ensures((lent,), ghost_answer));
            assert(call_ensures(
                ER::into_extend_mut_return,
                (ghost_answer,),
                (ghost_back, ghost_payload),
            ));
        }
        ret
    }
}

impl<'a: 'b, 'b, T1: 'b, T2: 'b, T3: 'b, T4: 'b, T5: 'b, T6: 'b, T7: 'b, T8: 'b, T9: 'b, T10: 'b, T11: 'b, T12: 'b> ExtendMut<'b> for (&'a mut T1, &'a mut T2, &'a mut T3, &'a mut T4, &'a mut T5, &'a mut T6, &'a mut T7, &'a mut T8, &'a mut T9, &'a mut T10, &'a mut T11, &'a mut T12) {
    type Extended = (&'b mut T1, &'b mut T2, &'b mut T3, &'b mut T4, &'b mut T5, &'b mut T6, &'b mut T7, &'b mut T8, &'b mut T9, &'b mut T10, &'b mut T11, &'b mut T12);

    open spec fn sized() -> bool {
        size_of::<T1>() != 0
        && size_of::<T2>() != 0
        && size_of::<T3>() != 0
        && size_of::<T4>() != 0
        && size_of::<T5>() != 0
        && size_of::<T6>() != 0
        && size_of::<T7>() != 0
        && size_of::<T8>() != 0
        && size_of::<T9>() != 0
        && size_of::<T10>() != 0
        && size_of::<T11>() != 0
        && size_of::<T12>() != 0
    }

    open spec fn lends(self, lent: (&'b mut T1, &'b mut T2, &'b mut T3, &'b mut T4, &'b mut T5, &'b mut T6, &'b mut T7, &'b mut T8, &'b mut T9, &'b mut T10, &'b mut T11, &'b mut T12)) -> bool {
        *lent.0 == *self.0
        && *lent.1 == *self.1
        && *lent.2 == *self.2
        && *lent.3 == *self.3
        && *lent.4 == *self.4
        && *lent.5 == *self.5
        && *lent.6 == *self.6
        && *lent.7 == *self.7
        && *lent.8 == *self.8
        && *lent.9 == *self.9
        && *lent.10 == *self.10
        && *lent.11 == *self.11
    }

    fn extend_mut<R, ER, F>(self, f: F) -> (ret: Result<R, Violation>)
        where
            ER: IntoExtendMutReturn<(&'b mut T1, &'b mut T2, &'b mut T3, &'b mut T4, &'b mut T5, &'b mut T6, &'b mut T7, &'b mut T8, &'b mut T9, &'b mut T10, &'b mut T11, &'b mut T12), R>,
            F: FnOnce((&'b mut T1, &'b mut T2, &'b mut T3, &'b mut T4, &'b mut T5, &'b mut T6, &'b mut T7, &'b mut T8, &'b mut T9, &'b mut T10, &'b mut T11, &'b mut T12)) -> ER,
        ensures
            !Self::sized() ==> *final(self.0) == *old(self.0)
                && *final(self.1) == *old(self.1)
                && *final(self.2) == *old(self.2)
                && *final(self.3) == *old(self.3)
                && *final(self.4) == *old(self.4)
                && *final(self.5) == *old(self.5)
                && *final(self.6) == *old(self.6)
                && *final(self.7) == *old(self.7)
                && *final(self.8) == *old(self.8)
                && *final(self.9) == *old(self.9)
                && *final(self.10) == *old(self.10)
                && *final(self.11) == *old(self.11),
            Self::sized() ==> exists|
                lent: (&'b mut T1, &'b mut T2, &'b mut T3, &'b mut T4, &'b mut T5, &'b mut T6, &'b mut T7, &'b mut T8, &'b mut T9, &'b mut T10, &'b mut T11, &'b mut T12),
                answer: ER,
                back: (&'b mut T1, &'b mut T2, &'b mut T3, &'b mut T4, &'b mut T5, &'b mut T6, &'b mut T7, &'b mut T8, &'b mut T9, &'b mut T10, &'b mut T11, &'b mut T12),
                payload: R,
            |
                *lent.0 == *old(self.0) && *final(self.0) == *final(lent.0)
                && *lent.1 == *old(self.1) && *final(self.1) == *final(lent.1)
                && *lent.2 == *old(self.2) && *final(self.2) == *final(lent.2)
                && *lent.3 == *old(self.3) && *final(self.3) == *final(lent.3)
                && *lent.4 == *old(self.4) && *final(self.4) == *final(lent.4)
                && *lent.5 == *old(self.5) && *final(self.5) == *final(lent.5)
                && *lent.6 == *old(self.6) && *final(self.6) == *final(lent.6)
                && *lent.7 == *old(self.7) && *final(self.7) == *final(lent.7)
                && *lent.8 == *old(self.8) && *final(self.8) == *final(lent.8)
                && *lent.9 == *old(self.9) && *final(self.9) == *final(lent.9)
                && *lent.10 == *old(self.10) && *final(self.10) == *final(lent.10)
                && *lent.11 == *old(self.11) && *final(self.11) == *final(lent.11)
                && #[trigger] f.ensures((lent,), answer)
                && #[trigger] call_ensures(ER::into_extend_mut_return, (answer,), (back, payload))
                && *final(back.0) == *back.0
                && *final(back.1) == *back.1
                && *final(back.2) == *back.2
                && *final(back.3) == *back.3
                && *final(back.4) == *back.4
                && *final(back.5) == *back.5
                && *final(back.6) == *back.6
                && *final(back.7) == *back.7
                && *final(back.8) == *back.8
                && *final(back.9) == *back.9
                && *final(back.10) == *back.10
                && *final(back.11) == *back.11
                && (ret == Ok::<R, Violation>(payload)
                    || ret == Err::<R, Violation>(Violation::PointerChanged)),
    {
        if core::mem::size_of::<T1>() == 0
            || core::mem::size_of::<T2>() == 0
            || core::mem::size_of::<T3>() == 0
            || core::mem::size_of::<T4>() == 0
            || core::mem::size_of::<T5>() == 0
            || core::mem::size_of::<T6>() == 0
            || core::mem::size_of::<T7>() == 0
            || core::mem::size_of::<T8>() == 0
            || core::mem::size_of::<T9>() == 0
            || core::mem::size_of::<T10>() == 0
            || core::mem::size_of::<T11>() == 0
            || core::mem::size_of::<T12>() == 0 {
            return Err(Violation::ZeroSized);
        }
        let w1 = AddressWitness::new(address_of(self.0));
        let w2 = AddressWitness::new(address_of(self.1));
        let w3 = AddressWitness::new(address_of(self.2));
        let w4 = AddressWitness::new(address_of(self.3));
        let w5 = AddressWitness::new(address_of(self.4));
        let w6 = AddressWitness::new(address_of(self.5));
        let w7 = AddressWitness::new(address_of(self.6));
        let w8 = AddressWitness::new(address_of(self.7));
        let w9 = AddressWitness::new(address_of(self.8));
        let w10 = AddressWitness::new(address_of(self.9));
        let w11 = AddressWitness::new(address_of(self.10));
        let w12 = AddressWitness::new(address_of(self.11));
        let ghost lent = self;
        let answer = f(self);
        let ghost ghost_answer = answer;
        let (back, payload) = answer.into_extend_mut_return();
        let ghost ghost_back = back;
        let ghost ghost_payload = payload;
        let ret = w12.release(address_of(back.11), payload);
        let ret = w11.release_if(address_of(back.10), ret);
        let ret = w10.release_if(address_of(back.9), ret);
        let ret = w9.release_if(address_of(back.8), ret);
        let ret = w8.release_if(address_of(back.7), ret);
        let ret = w7.release_if(address_of(back.6), ret);
        let ret = w6.release_if(address_of(back.5), ret);
        let ret = w5.release_if(address_of(back.4), ret);
        let ret = w4.release_if(address_of(back.3), ret);
        let ret = w3.release_if(address_of(back.2), ret);
        let ret = w2.release_if(address_of(back.1), ret);
        let ret = w1.release_if(address_of(back.0), ret);
        proof {
            assert(f.ensures((lent,), ghost_answer));
            assert(call_ensures(
                ER::into_extend_mut_return,
                (ghost_answer,),
                (ghost_back, ghost_payload),
            ));
        }
        ret
    }
}

impl<'a: 'b, 'b, T1: 'b, T2: 'b, T3: 'b, T4: 'b, T5: 'b, T6: 'b, T7: 'b, T8: 'b, T9: 'b, T10: 'b, T11: 'b, T12: 'b, T13: 'b> ExtendMut<'b> for (&'a mut T1, &'a mut T2, &'a mut T3, &'a mut T4, &'a mut T5, &'a mut T6, &'a mut T7, &'a mut T8, &'a mut T9, &'a mut T10, &'a mut T11, &'a mut T12, &'a mut T13) {
    type Extended = (&'b mut T1, &'b mut T2, &'b mut T3, &'b mut T4, &'b mut T5, &'b mut T6, &'b mut T7, &'b mut T8, &'b mut T9, &'b mut T10, &'b mut T11, &'b mut T12, &'b mut T13);

    open spec fn sized() -> bool {
        size_of::<T1>() != 0
        && size_of::<T2>() != 0
        && size_of::<T3>() != 0
        && size_of::<T4>() != 0
        && size_of::<T5>() != 0
        && size_of::<T6>() != 0
        && size_of::<T7>() != 0
        && size_of::<T8>() != 0
        && size_of::<T9>() != 0
        && size_of::<T10>() != 0
        && size_of::<T11>() != 0
        && size_of::<T12>() != 0
        && size_of::<T13>() != 0
    }

    open spec fn lends(self, lent: (&'b mut T1, &'b mut T2, &'b mut T3, &'b mut T4, &'b mut T5, &'b mut T6, &'b mut T7, &'b mut T8, &'b mut T9, &'b mut T10, &'b mut T11, &'b mut T12, &'b mut T13)) -> bool {
        *lent.0 == *self.0
        && *lent.1 == *self.1
        && *lent.2 == *self.2
        && *lent.3 == *self.3
        && *lent.4 == *self.4
        && *lent.5 == *self.5
        && *lent.6 == *self.6
        && *lent.7 == *self.7
        && *lent.8 == *self.8
        && *lent.9 == *self.9
        && *lent.10 == *self.10
        && *lent.11 == *self.11
        && *lent.12 == *self.12
    }

    fn extend_mut<R, ER, F>(self, f: F) -> (ret: Result<R, Violation>)
        where
            ER: IntoExtendMutReturn<(&'b mut T1, &'b mut T2, &'b mut T3, &'b mut T4, &'b mut T5, &'b mut T6, &'b mut T7, &'b mut T8, &'b mut T9, &'b mut T10, &'b mut T11, &'b mut T12, &'b mut T13), R>,
            F: FnOnce((&'b mut T1, &'b mut T2, &'b mut T3, &'b mut T4, &'b mut T5, &'b mut T6, &'b mut T7, &'b mut T8, &'b mut T9, &'b mut T10, &'b mut T11, &'b mut T12, &'b mut T13)) -> ER,
        ensures
            !Self::sized() ==> *final(self.0) == *old(self.0)
                && *final(self.1) == *old(self.1)
                && *final(self.2) == *old(self.2)
                && *final(self.3) == *old(self.3)
                && *final(self.4) == *old(self.4)
                && *final(self.5) == *old(self.5)
                && *final(self.6) == *old(self.6)
                && *final(self.7) == *old(self.7)
                && *final(self.8) == *old(self.8)
                && *final(self.9) == *old(self.9)
                && *final(self.10) == *old(self.10)
                && *final(self.11) == *old(self.11)
                && *final(self.12) == *old(self.12),
            Self::sized() ==> exists|
                lent: (&'b mut T1, &'b mut T2, &'b mut T3, &'b mut T4, &'b mut T5, &'b mut T6, &'b mut T7, &'b mut T8, &'b mut T9, &'b mut T10, &'b mut T11, &'b mut T12, &'b mut T13),
                answer: ER,
                back: (&'b mut T1, &'b mut T2, &'b mut T3, &'b mut T4, &'b mut T5, &'b mut T6, &'b mut T7, &'b mut T8, &'b mut T9, &'b mut T10, &'b mut T11, &'b mut T12, &'b mut T13),
                payload: R,
            |
                *lent.0 == *old(self.0) && *final(self.0) == *final(lent.0)
                && *lent.1 == *old(self.1) && *final(self.1) == *final(lent.1)
                && *lent.2 == *old(self.2) && *final(self.2) == *final(lent.2)
                && *lent.3 == *old(self.3) && *final(self.3) == *final(lent.3)
                && *lent.4 == *old(self.4) && *final(self.4) == *final(lent.4)
                && *lent.5 == *old(self.5) && *final(self.5) == *final(lent.5)
                && *lent.6 == *old(self.6) && *final(self.6) == *final(lent.6)
                && *lent.7 == *old(self.7) && *final(self.7) == *final(lent.7)
                && *lent.8 == *old(self.8) && *final(self.8) == *final(lent.8)
                && *lent.9 == *old(self.9) && *final(self.9) == *final(lent.9)
                && *lent.10 == *old(self.10) && *final(self.10) == *final(lent.10)
                && *lent.11 == *old(self.11) && *final(self.11) == *final(lent.11)
                && *lent.12 == *old(self.12) && *final(self.12) == *final(lent.12)
                && #[trigger] f.ensures((lent,), answer)
                && #[trigger] call_ensures(ER::into_extend_mut_return, (answer,), (back, payload))
                && *final(back.0) == *back.0
                && *final(back.1) == *back.1
                && *final(back.2) == *back.2
                && *final(back.3) == *back.3
                && *final(back.4) == *back.4
                && *final(back.5) == *back.5
                && *final(back.6) == *back.6
                && *final(back.7) == *back.7
                && *final(back.8) == *back.8
                && *final(back.9) == *back.9
                && *final(back.10) == *back.10
                && *final(back.11) == *back.11
                && *final(back.12) == *back.12
                && (ret == Ok::<R, Violation>(payload)
                    || ret == Err::<R, Violation>(Violation::PointerChanged)),
    {
        if core::mem::size_of::<T1>() == 0
            || core::mem::size_of::<T2>() == 0
            || core::mem::size_of::<T3>() == 0
            || core::mem::size_of::<T4>() == 0
            || core::mem::size_of::<T5>() == 0
            || core::mem::size_of::<T6>() == 0
            || core::mem::size_of::<T7>() == 0
            || core::mem::size_of::<T8>() == 0
            || core::mem::size_of::<T9>() == 0
            || core::mem::size_of::<T10>() == 0
            || core::mem::size_of::<T11>() == 0
            || core::mem::size_of::<T12>() == 0
            || core::mem::size_of::<T13>() == 0 {
            return Err(Violation::ZeroSized);
        }
        let w1 = AddressWitness::new(address_of(self.0));
        let w2 = AddressWitness::new(address_of(self.1));
        let w3 = AddressWitness::new(address_of(self.2));
        let w4 = AddressWitness::new(address_of(self.3));
        let w5 = AddressWitness::new(address_of(self.4));
        let w6 = AddressWitness::new(address_of(self.5));
        let w7 = AddressWitness::new(address_of(self.6));
        let w8 = AddressWitness::new(address_of(self.7));
        let w9 = AddressWitness::new(address_of(self.8));
        let w10 = AddressWitness::new(address_of(self.9));
        let w11 = AddressWitness::new(address_of(self.10));
        let w12 = AddressWitness::new(address_of(self.11));
        let w13 = AddressWitness::new(address_of(self.12));
        let ghost lent = self;
        let answer = f(self);
        let ghost ghost_answer = answer;
        let (back, payload) = answer.into_extend_mut_return();
        let ghost ghost_back = back;
        let ghost ghost_payload = payload;
        let ret = w13.release(address_of(back.12), payload);
        let ret = w12.release_if(address_of(back.11), ret);
        let ret = w11.release_if(address_of(back.10), ret);
        let ret = w10.release_if(address_of(back.9), ret);
        let ret = w9.release_if(address_of(back.8), ret);
        let ret = w8.release_if(address_of(back.7), ret);
        let ret = w7.release_if(address_of(back.6), ret);
        let ret = w6.release_if(address_of(back.5), ret);
        let ret = w5.release_if(address_of(back.4), ret);
        let ret = w4.release_if(address_of(back.3), ret);
        let ret = w3.release_if(address_of(back.2), ret);
        let ret = w2.release_if(address_of(back.1), ret);
        let ret = w1.release_if(address_of(back.0), ret);
        proof {
            assert(f.ensures((lent,), ghost_answer));
            assert(call_ensures(
                ER::into_extend_mut_return,
                (ghost_answer,),
                (ghost_back, ghost_payload),
            ));
        }
        ret
    }
}

} // verus!
