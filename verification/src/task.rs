//! The books of an extension whose callback suspends.
//!
//! The callback's computation is driven from outside. [`ExtendMutTask`] holds
//! what has to outlive each resumption: the address witness and whether the
//! computation has completed. [`ExtendMutTask::poll`] decides what the report
//! of one resumption comes to; [`ExtendMutTask::poll_with`] also decides
//! whether the computation is resumed at all. Before the driver discards the
//! task, it asks [`ExtendMutTask::on_drop`].

use vstd::prelude::*;
use vstd::layout::size_of;
use crate::aborts::{abort_on_unwind, Violation};
use crate::witness::{address_of, AddressWitness};

verus! {

/// What the suspended computation said when it was resumed.
#[derive(Debug, PartialEq, Eq)]
pub enum Resumed<R> {
    /// It suspended again.
    Suspended,
    /// It finished: the address of the reference it handed back, and the
    /// auxiliary value.
    Finished { returned: usize, payload: R },
}

/// What a resumption of the task comes to.
#[derive(Debug, PartialEq, Eq)]
pub enum Polled<R> {
    /// Not finished.
    Pending,
    /// Finished with this auxiliary value; reported once.
    Ready(R),
    /// The protocol was breached and the process has to stop.
    Violated(Violation),
}

/// The state of one suspendable extension.
#[derive(Debug)]
pub struct ExtendMutTask {
    witness: AddressWitness,
    ready: bool,
}

/// What [`ExtendMutTask::poll`] makes of a report: the report counts only
/// while the task has not completed, and a finished computation completes the
/// task only if the reference came back at the witnessed address.
pub open spec fn step<R>(address: usize, completed: bool, resumed: Resumed<R>) -> (bool, Polled<R>) {
    if completed {
        (true, Polled::Pending)
    } else {
        match resumed {
            Resumed::Suspended => (false, Polled::Pending),
            Resumed::Finished { returned, payload } => if returned == address {
                (true, Polled::Ready(payload))
            } else {
                (false, Polled::Violated(Violation::PointerChanged))
            },
        }
    }
}

impl ExtendMutTask {
    /// The address of the lent storage.
    pub closed spec fn address(self) -> usize {
        self.witness.address()
    }

    /// Whether the computation has completed and its value has been reported.
    pub closed spec fn completed(self) -> bool {
        self.ready
    }

    /// A task that has not completed, for the storage at `addr`.
    pub fn new(addr: usize) -> (task: Self)
        ensures
            task.address() == addr,
            !task.completed(),
    {
        ExtendMutTask { witness: AddressWitness::new(addr), ready: false }
    }

    /// A task that has not completed, for the storage that `target` refers
    /// to. A value of size zero is refused.
    pub fn begin<T>(target: &T) -> (ret: Result<Self, Violation>)
        ensures
            size_of::<T>() == 0 ==> ret == Err::<Self, Violation>(Violation::ZeroSized),
            size_of::<T>() != 0 ==> ret is Ok && !ret->Ok_0.completed(),
    {
        if core::mem::size_of::<T>() == 0 {
            Err(Violation::ZeroSized)
        } else {
            Ok(ExtendMutTask { witness: AddressWitness::new(address_of(target)), ready: false })
        }
    }

    /// Returns the address of the lent storage.
    pub fn addr(&self) -> (addr: usize)
        ensures
            addr == self.address(),
    {
        self.witness.addr()
    }

    /// Whether the computation has completed.
    pub fn is_ready(&self) -> (ready: bool)
        ensures
            ready == self.completed(),
    {
        self.ready
    }

    /// Takes the report of one resumption and decides what it comes to.
    ///
    /// A task that has completed stays completed and answers `Pending`
    /// whatever is reported. Otherwise a suspended computation leaves the
    /// task as it is; a finished one completes it and releases the auxiliary
    /// value if the reference came back at the witnessed address, and is a
    /// violation if it came back elsewhere.
    pub fn poll<R>(&mut self, resumed: Resumed<R>) -> (polled: Polled<R>)
        ensures
            final(self).address() == old(self).address(),
            (final(self).completed(), polled) == step(
                old(self).address(),
                old(self).completed(),
                resumed,
            ),
    {
        if self.ready {
            return Polled::Pending;
        }
        match resumed {
            Resumed::Suspended => Polled::Pending,
            Resumed::Finished { returned, payload } => {
                if self.witness.admits(returned) {
                    self.ready = true;
                    Polled::Ready(payload)
                } else {
                    Polled::Violated(Violation::PointerChanged)
                }
            },
        }
    }

    /// Resumes the computation with `resume` and decides what the resumption
    /// comes to, as [`ExtendMutTask::poll`] does. A task that has completed
    /// does not resume the computation again: `resume` is not called, and the
    /// answer is `Pending`.
    pub fn poll_with<R, F>(&mut self, resume: F) -> (polled: Polled<R>)
        where
            F: FnOnce() -> Resumed<R>,
        requires
            !old(self).completed() ==> resume.requires(()),
        ensures
            final(self).address() == old(self).address(),
            old(self).completed() ==> final(self).completed() && polled == Polled::<R>::Pending,
            !old(self).completed() ==> exists|resumed: Resumed<R>|
                #[trigger] resume.ensures((), resumed) && (final(self).completed(), polled) == step(
                    old(self).address(),
                    false,
                    resumed,
                ),
    {
        if self.ready {
            return Polled::Pending;
        }
        let resumed = abort_on_unwind(resume);
        let ghost ghost_resumed = resumed;
        let polled = self.poll(resumed);
        proof {
            assert(resume.ensures((), ghost_resumed));
        }
        polled
    }

    /// What discarding the task now comes to: nothing once it has completed,
    /// a violation before.
    pub fn on_drop(&self) -> (ret: Option<Violation>)
        ensures
            self.completed() ==> ret == None::<Violation>,
            !self.completed() ==> ret == Some(Violation::DroppedBeforeReady),
    {
        if self.ready {
            None
        } else {
            Some(Violation::DroppedBeforeReady)
        }
    }
}

/// Whether the task has completed once `reports` have been polled in order,
/// one poll for each resumption.
pub open spec fn completed_after<R>(address: usize, completed: bool, reports: Seq<Resumed<R>>) -> bool
    decreases reports.len(),
{
    if reports.len() == 0 {
        completed
    } else {
        step(address, completed_after(address, completed, reports.drop_last()), reports.last()).0
    }
}

proof fn lemma_suspended_does_not_complete<R>(address: usize, suspended: Seq<Resumed<R>>)
    requires
        forall|i: int| 0 <= i < suspended.len() ==> suspended[i] is Suspended,
    ensures
        !completed_after(address, false, suspended),
    decreases suspended.len(),
{
    if suspended.len() > 0 {
        lemma_suspended_does_not_complete(address, suspended.drop_last());
    }
}

/// A computation that suspends some number of times and then finishes with
/// the reference at the witnessed address, polled once for each resumption:
/// every poll before the last is pending and leaves the task as it was, and
/// the poll that follows the last suspension reports the auxiliary value. No
/// resumption is skipped and none counts twice.
pub proof fn law_ready_after_last_suspension<R>(
    address: usize,
    suspended: Seq<Resumed<R>>,
    payload: R,
)
    requires
        forall|i: int| 0 <= i < suspended.len() ==> suspended[i] is Suspended,
    ensures
        forall|n: int|
            0 <= n < suspended.len() ==> #[trigger] step(
                address,
                completed_after(address, false, suspended.take(n)),
                suspended[n],
            ) == (false, Polled::<R>::Pending),
        step(
            address,
            completed_after(address, false, suspended),
            Resumed::Finished { returned: address, payload },
        ) == (true, Polled::Ready(payload)),
{
    lemma_suspended_does_not_complete(address, suspended);
    assert forall|n: int| 0 <= n < suspended.len() implies #[trigger] step(
        address,
        completed_after(address, false, suspended.take(n)),
        suspended[n],
    ) == (false, Polled::<R>::Pending) by {
        lemma_suspended_does_not_complete(address, suspended.take(n));
    }
}

/// A task reports a value only when the computation has finished with the
/// reference at the witnessed address, and only if it had not completed
/// before; the task has completed from then on.
pub proof fn law_ready_is_witnessed<R>(address: usize, completed: bool, resumed: Resumed<R>)
    requires
        step(address, completed, resumed).1 is Ready,
    ensures
        !completed,
        resumed is Finished,
        resumed->returned == address,
        step(address, completed, resumed).1 == Polled::Ready(resumed->payload),
        step(address, completed, resumed).0,
{
}

/// Once a task has reported its value, every further resumption is pending
/// and leaves it completed: no value is reported twice.
pub proof fn law_ready_once<R>(address: usize, completed: bool, first: Resumed<R>, second: Resumed<R>)
    requires
        step(address, completed, first).1 is Ready,
    ensures
        step(address, step(address, completed, first).0, second) == (true, Polled::<R>::Pending),
{
}

/// A task that has not completed stays so until the computation finishes
/// with the reference at the witnessed address.
pub proof fn law_pending_until_finished<R>(address: usize, resumed: Resumed<R>)
    ensures
        step(address, false, resumed).0 <==> (resumed is Finished && resumed->returned == address),
        step(address, false, resumed).1 is Violated <==> (resumed is Finished && resumed->returned
            != address),
{
}

} // verus!
