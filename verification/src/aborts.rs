//! Contract violations and the guard around caller-supplied callbacks.
//!
//! A violation means that exclusivity may already be broken, so the only
//! sound reaction is to stop the process. Stopping a process is not something
//! a verified function can do; the functions of this crate therefore report a
//! [`Violation`], and the caller that owns the process stops it with
//! [`Violation::message`].

use vstd::prelude::*;

verus! {

/// The ways in which the extension protocol can be breached.
#[derive(Clone, Copy, Debug, PartialEq, Eq, Structural)]
pub enum Violation {
    /// The callback handed back a reference to other storage than it was lent.
    PointerChanged,
    /// The callback unwound while it held the widened reference.
    Unwound,
    /// A task was discarded before it had completed.
    DroppedBeforeReady,
    /// The value to extend has size zero, so its address identifies nothing.
    ZeroSized,
}

impl Violation {
    /// The text that is logged when the process is stopped for this violation.
    pub open spec fn spec_message(self) -> Seq<char> {
        match self {
            Violation::PointerChanged => "ExtendMut: Pointer changed"@,
            Violation::Unwound => "ExtendMut: Function cannot unwind"@,
            Violation::DroppedBeforeReady => "Cannot drop ExtendMutFuture before it yields Poll::Ready"@,
            Violation::ZeroSized => "ExtendMut: Cannot extend a zero-sized value"@,
        }
    }

    /// Returns the text that is logged when the process is stopped for this
    /// violation.
    pub fn message(&self) -> (msg: &'static str)
        ensures
            msg@ == self.spec_message(),
    {
        match self {
            Violation::PointerChanged => "ExtendMut: Pointer changed",
            Violation::Unwound => "ExtendMut: Function cannot unwind",
            Violation::DroppedBeforeReady => "Cannot drop ExtendMutFuture before it yields Poll::Ready",
            Violation::ZeroSized => "ExtendMut: Cannot extend a zero-sized value",
        }
    }
}

/// Runs `f` to completion and returns what it returned.
///
/// This is the boundary that a callback holding a widened reference must not
/// unwind past. A callback that meets its precondition does not fail, so here
/// the boundary has nothing to catch; a caller that runs unchecked callbacks
/// places its own unwinding guard around this call.
pub fn abort_on_unwind<T>(f: impl FnOnce() -> T) -> (ret: T)
    requires
        f.requires(()),
    ensures
        f.ensures((), ret),
{
    f()
}

} // verus!
