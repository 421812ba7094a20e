//! The address witness: the address of the lent storage, taken before the
//! reference is widened and held against the address that comes back.

use vstd::prelude::*;
use crate::aborts::Violation;

verus! {

/// Calls `core::ptr::from_ref` and turns the pointer into its address.
///
/// Nothing is claimed of the result: an address is not a function of the value
/// that is stored there, and differs from run to run.
#[verifier::external_body]
pub(crate) fn address_of<T>(target: &T) -> (addr: usize)
{
    core::ptr::from_ref(target) as usize
}

/// What one member makes of the result so far: the result passes where the
/// reference came back at the captured address, and a changed pointer is
/// reported where it came back elsewhere.
pub open spec fn released<R>(captured: usize, returned: usize, rest: Result<R, Violation>) -> Result<
    R,
    Violation,
> {
    if returned == captured {
        rest
    } else {
        Err(Violation::PointerChanged)
    }
}

/// What a group comes to that is released member by member: `captured` holds
/// the address captured for each member, `returned` the address at which the
/// reference in its position came back.
pub open spec fn released_group<R>(captured: Seq<usize>, returned: Seq<usize>, payload: R) -> Result<
    R,
    Violation,
>
    decreases captured.len(),
{
    if captured.len() == 0 {
        Ok(payload)
    } else {
        released(
            captured[0],
            returned[0],
            released_group(captured.drop_first(), returned.drop_first(), payload),
        )
    }
}

/// A group releases its auxiliary value if every member came back at its own
/// address, and reports a changed pointer if any member came back elsewhere,
/// be it at the address of another member.
pub proof fn law_group_released_in_place<R>(captured: Seq<usize>, returned: Seq<usize>, payload: R)
    requires
        captured.len() == returned.len(),
    ensures
        captured == returned ==> released_group(captured, returned, payload) == Ok::<R, Violation>(
            payload,
        ),
        captured != returned ==> released_group(captured, returned, payload) == Err::<
            R,
            Violation,
        >(Violation::PointerChanged),
    decreases captured.len(),
{
    if captured.len() > 0 {
        law_group_released_in_place(captured.drop_first(), returned.drop_first(), payload);
        if captured[0] == returned[0] && captured.drop_first() == returned.drop_first() {
            assert(captured =~= returned) by {
                assert forall|i: int| 0 <= i < captured.len() implies captured[i] == returned[i] by {
                    if i > 0 {
                        assert(captured[i] == captured.drop_first()[i - 1]);
                        assert(returned[i] == returned.drop_first()[i - 1]);
                    }
                }
            }
        }
    } else {
        assert(captured =~= returned);
    }
}

/// The address of the storage behind an exclusive reference, captured before
/// the reference is lent out.
#[derive(Clone, Copy, Debug)]
pub struct AddressWitness {
    addr: usize,
}

impl AddressWitness {
    /// The captured address.
    pub closed spec fn address(self) -> usize {
        self.addr
    }

    /// A witness for the storage at `addr`.
    pub fn new(addr: usize) -> (witness: Self)
        ensures
            witness.address() == addr,
    {
        AddressWitness { addr }
    }

    /// A witness for the storage that `target` refers to.
    ///
    /// Which address that is cannot be said beforehand; it is read back with
    /// [`AddressWitness::addr`].
    pub fn capture<T>(target: &T) -> (witness: Self)
    {
        AddressWitness { addr: address_of(target) }
    }

    /// Returns the captured address.
    pub fn addr(&self) -> (addr: usize)
        ensures
            addr == self.address(),
    {
        self.addr
    }

    /// Whether `returned` is the captured address.
    pub fn admits(&self, returned: usize) -> (same: bool)
        ensures
            same == (returned == self.address()),
    {
        self.addr == returned
    }

    /// Releases `payload` if the reference that came back lies at the
    /// captured address, and reports a changed pointer otherwise.
    pub fn release<R>(&self, returned: usize, payload: R) -> (ret: Result<R, Violation>)
        ensures
            ret == released(self.address(), returned, Ok::<R, Violation>(payload)),
    {
        if self.addr == returned {
            Ok(payload)
        } else {
            Err(Violation::PointerChanged)
        }
    }

    /// Passes on what the other members of a group came to if the reference
    /// that came back lies at the captured address, and reports a changed
    /// pointer otherwise, whatever the others came to.
    ///
    /// A group is released member by member: the last one with
    /// [`AddressWitness::release`], each one before it with this function on
    /// the result so far. The auxiliary value then comes through only if
    /// every member came back at its own address.
    pub fn release_if<R>(&self, returned: usize, rest: Result<R, Violation>) -> (ret: Result<
        R,
        Violation,
    >)
        ensures
            ret == released(self.address(), returned, rest),
    {
        if self.addr == returned {
            rest
        } else {
            Err(Violation::PointerChanged)
        }
    }
}

} // verus!
