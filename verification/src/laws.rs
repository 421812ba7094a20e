//! What holds of an extension whose callback keeps to the protocol.
//!
//! The contracts of [`extend_mut`](crate::extend_mut) and of
//! [`ExtendMut::extend_mut`] say what happened in terms of the callback's own
//! contract. The statements here draw the consequences for a callback that
//! hands back the references it was lent: the owner then finds behind each
//! reference what the callback left there, as if it had called the callback
//! directly.
//!
//! Each statement takes the values before and after the call, the callback and
//! the result, and assumes of them what the call ensures.

use vstd::prelude::*;
use crate::aborts::Violation;
use crate::IntoExtendMutReturn;

verus! {

/// Lending `before` to a callback that hands back the reference it was lent
/// is calling the callback on it: the value ends as the callback left it
/// behind the reference, and the result releases the callback's auxiliary
/// value unless it reports a changed pointer.
pub proof fn law_extend_mut_is_call<'b, T: 'b, R, ER, F>(before: T, after: T, f: F, ret: Result<R, Violation>)
    where
        ER: IntoExtendMutReturn<&'b mut T, R>,
        F: FnOnce(&'b mut T) -> ER,
    requires
        exists|lent: &'b mut T, answer: ER, back: &'b mut T, payload: R|
            *lent == before
            && after == *final(lent)
            && #[trigger] f.ensures((lent,), answer)
            && #[trigger] call_ensures(ER::into_extend_mut_return, (answer,), (back, payload))
            && *final(back) == *back
            && (ret == Ok::<R, Violation>(payload)
                || ret == Err::<R, Violation>(Violation::PointerChanged)),
        forall|lent: &'b mut T, answer: ER, back: &'b mut T, payload: R|
            #[trigger] f.ensures((lent,), answer)
            && #[trigger] call_ensures(ER::into_extend_mut_return, (answer,), (back, payload))
            ==> *final(back) == *final(lent),
    ensures
        exists|lent: &'b mut T, answer: ER, back: &'b mut T, payload: R|
            *lent == before
            && #[trigger] f.ensures((lent,), answer)
            && #[trigger] call_ensures(ER::into_extend_mut_return, (answer,), (back, payload))
            && after == *back
            && (ret == Ok::<R, Violation>(payload)
                || ret == Err::<R, Violation>(Violation::PointerChanged)),
{
}

/// Lending `before` to a callback that hands the reference back untouched
/// changes nothing.
pub proof fn law_extend_mut_identity<'b, T: 'b, R, ER, F>(before: T, after: T, f: F, ret: Result<R, Violation>)
    where
        ER: IntoExtendMutReturn<&'b mut T, R>,
        F: FnOnce(&'b mut T) -> ER,
    requires
        exists|lent: &'b mut T, answer: ER, back: &'b mut T, payload: R|
            *lent == before
            && after == *final(lent)
            && #[trigger] f.ensures((lent,), answer)
            && #[trigger] call_ensures(ER::into_extend_mut_return, (answer,), (back, payload))
            && *final(back) == *back
            && (ret == Ok::<R, Violation>(payload)
                || ret == Err::<R, Violation>(Violation::PointerChanged)),
        forall|lent: &'b mut T, answer: ER, back: &'b mut T, payload: R|
            #[trigger] f.ensures((lent,), answer)
            && #[trigger] call_ensures(ER::into_extend_mut_return, (answer,), (back, payload))
            ==> *final(back) == *final(lent) && *back == *lent,
    ensures
        after == before,
{
}

/// Lending a group of one to a callback that hands every member back
/// untouched leaves every member as it was.
pub proof fn law_group_identity_1<'b, T1: 'b, R, ER, F>(
    before: (T1,),
    after: (T1,),
    f: F,
    ret: Result<R, Violation>,
)
    where
        ER: IntoExtendMutReturn<(&'b mut T1,), R>,
        F: FnOnce((&'b mut T1,)) -> ER,
    requires
        exists|
            lent: (&'b mut T1,),
            answer: ER,
            back: (&'b mut T1,),
            payload: R,
        |
            *lent.0 == before.0 && after.0 == *final(lent.0)
            && #[trigger] f.ensures((lent,), answer)
            && #[trigger] call_ensures(ER::into_extend_mut_return, (answer,), (back, payload))
            && *final(back.0) == *back.0
            && (ret == Ok::<R, Violation>(payload)
                || ret == Err::<R, Violation>(Violation::PointerChanged)),
        forall|
            lent: (&'b mut T1,),
            answer: ER,
            back: (&'b mut T1,),
            payload: R,
        |
            #[trigger] f.ensures((lent,), answer)
            && #[trigger] call_ensures(ER::into_extend_mut_return, (answer,), (back, payload))
            ==> *final(back.0) == *final(lent.0) && *back.0 == *lent.0,
    ensures
        after == before,
{
}

/// Lending a group of two to a callback that hands every member back
/// untouched leaves every member as it was.
pub proof fn law_group_identity_2<'b, T1: 'b, T2: 'b, R, ER, F>(
    before: (T1, T2),
    after: (T1, T2),
    f: F,
    ret: Result<R, Violation>,
)
    where
        ER: IntoExtendMutReturn<(&'b mut T1, &'b mut T2), R>,
        F: FnOnce((&'b mut T1, &'b mut T2)) -> ER,
    requires
        exists|
            lent: (&'b mut T1, &'b mut T2),
            answer: ER,
            back: (&'b mut T1, &'b mut T2),
            payload: R,
        |
            *lent.0 == before.0 && after.0 == *final(lent.0)
            && *lent.1 == before.1 && after.1 == *final(lent.1)
            && #[trigger] f.ensures((lent,), answer)
            && #[trigger] call_ensures(ER::into_extend_mut_return, (answer,), (back, payload))
            && *final(back.0) == *back.0
            && *final(back.1) == *back.1
            && (ret == Ok::<R, Violation>(payload)
                || ret == Err::<R, Violation>(Violation::PointerChanged)),
        forall|
            lent: (&'b mut T1, &'b mut T2),
            answer: ER,
            back: (&'b mut T1, &'b mut T2),
            payload: R,
        |
            #[trigger] f.ensures((lent,), answer)
            && #[trigger] call_ensures(ER::into_extend_mut_return, (answer,), (back, payload))
            ==> *final(back.0) == *final(lent.0) && *back.0 == *lent.0
                && *final(back.1) == *final(lent.1) && *back.1 == *lent.1,
    ensures
        after == before,
{
}

/// Lending a group of three to a callback that hands every member back
/// untouched leaves every member as it was.
pub proof fn law_group_identity_3<'b, T1: 'b, T2: 'b, T3: 'b, R, ER, F>(
    before: (T1, T2, T3),
    after: (T1, T2, T3),
    f: F,
    ret: Result<R, Violation>,
)
    where
        ER: IntoExtendMutReturn<(&'b mut T1, &'b mut T2, &'b mut T3), R>,
        F: FnOnce((&'b mut T1, &'b mut T2, &'b mut T3)) -> ER,
    requires
        exists|
            lent: (&'b mut T1, &'b mut T2, &'b mut T3),
            answer: ER,
            back: (&'b mut T1, &'b mut T2, &'b mut T3),
            payload: R,
        |
            *lent.0 == before.0 && after.0 == *final(lent.0)
            && *lent.1 == before.1 && after.1 == *final(lent.1)
            && *lent.2 == before.2 && after.2 == *final(lent.2)
            && #[trigger] f.ensures((lent,), answer)
            && #[trigger] call_ensures(ER::into_extend_mut_return, (answer,), (back, payload))
            && *final(back.0) == *back.0
            && *final(back.1) == *back.1
            && *final(back.2) == *back.2
            && (ret == Ok::<R, Violation>(payload)
                || ret == Err::<R, Violation>(Violation::PointerChanged)),
        forall|
            lent: (&'b mut T1, &'b mut T2, &'b mut T3),
            answer: ER,
            back: (&'b mut T1, &'b mut T2, &'b mut T3),
            payload: R,
        |
            #[trigger] f.ensures((lent,), answer)
            && #[trigger] call_ensures(ER::into_extend_mut_return, (answer,), (back, payload))
            ==> *final(back.0) == *final(lent.0) && *back.0 == *lent.0
                && *final(back.1) == *final(lent.1) && *back.1 == *lent.1
                && *final(back.2) == *final(lent.2) && *back.2 == *lent.2,
    ensures
        after == before,
{
}

/// Lending a group of four to a callback that hands every member back
/// untouched leaves every member as it was.
pub proof fn law_group_identity_4<'b, T1: 'b, T2: 'b, T3: 'b, T4: 'b, R, ER, F>(
    before: (T1, T2, T3, T4),
    after: (T1, T2, T3, T4),
    f: F,
    ret: Result<R, Violation>,
)
    where
        ER: IntoExtendMutReturn<(&'b mut T1, &'b mut T2, &'b mut T3, &'b mut T4), R>,
        F: FnOnce((&'b mut T1, &'b mut T2, &'b mut T3, &'b mut T4)) -> ER,
    requires
        exists|
            lent: (&'b mut T1, &'b mut T2, &'b mut T3, &'b mut T4),
            answer: ER,
            back: (&'b mut T1, &'b mut T2, &'b mut T3, &'b mut T4),
            payload: R,
        |
            *lent.0 == before.0 && after.0 == *final(lent.0)
            && *lent.1 == before.1 && after.1 == *final(lent.1)
            && *lent.2 == before.2 && after.2 == *final(lent.2)
            && *lent.3 == before.3 && after.3 == *final(lent.3)
            && #[trigger] f.ensures((lent,), answer)
            && #[trigger] call_ensures(ER::into_extend_mut_return, (answer,), (back, payload))
            && *final(back.0) == *back.0
            && *final(back.1) == *back.1
            && *final(back.2) == *back.2
            && *final(back.3) == *back.3
            && (ret == Ok::<R, Violation>(payload)
                || ret == Err::<R, Violation>(Violation::PointerChanged)),
        forall|
            lent: (&'b mut T1, &'b mut T2, &'b mut T3, &'b mut T4),
            answer: ER,
            back: (&'b mut T1, &'b mut T2, &'b mut T3, &'b mut T4),
            payload: R,
        |
            #[trigger] f.ensures((lent,), answer)
            && #[trigger] call_ensures(ER::into_extend_mut_return, (answer,), (back, payload))
            ==> *final(back.0) == *final(lent.0) && *back.0 == *lent.0
                && *final(back.1) == *final(lent.1) && *back.1 == *lent.1
                && *final(back.2) == *final(lent.2) && *back.2 == *lent.2
                && *final(back.3) == *final(lent.3) && *back.3 == *lent.3,
    ensures
        after == before,
{
}

} // verus!
