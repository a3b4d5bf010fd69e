//! The exception channel of the boundary call convention.
//!
//! Every fallible boundary operation takes a slot of this type as an
//! out-parameter.  The native side writes a failure message into the slot
//! during a single call; the wrapper reads it immediately after the call
//! returns, before trusting the nominal return value, and surfaces it as a
//! typed failure.  The slot is call-scoped and never retained.

use vstd::prelude::*;

verus! {

/// A call-scoped slot into which a boundary call may deposit a native-side
/// failure.  Callers hand a clear slot to each fallible operation and check
/// it as soon as the call returns.
pub struct ExceptionState {
    pub message: Option<String>,
}

impl ExceptionState {
    /// True when no failure has been deposited.
    pub open spec fn is_clear(&self) -> bool {
        self.message is None
    }

    /// The text of the deposited failure.
    pub open spec fn failure_message(&self) -> Seq<char>
        recommends
            !self.is_clear(),
    {
        self.message->Some_0@
    }

    /// A clear slot, ready to be handed to a boundary call.
    pub fn new() -> (s: ExceptionState)
        ensures
            s.is_clear(),
    {
        ExceptionState { message: None }
    }

    /// Whether the preceding boundary call deposited a failure.
    pub fn has_exception(&self) -> (r: bool)
        ensures
            r == !self.is_clear(),
    {
        self.message.is_some()
    }

    /// An owned copy of the deposited failure message.
    pub fn message_string(&self) -> (m: String)
        requires
            !self.is_clear(),
        ensures
            m@ == self.failure_message(),
    {
        match &self.message {
            Some(s) => s.clone(),
            None => String::new(),
        }
    }

    /// Entry point for the native side: deposit a failure into the slot.
    pub fn set_failure(&mut self, message: String)
        ensures
            !final(self).is_clear(),
            final(self).failure_message() == message@,
    {
        self.message = Some(message);
    }
}

} // verus!
