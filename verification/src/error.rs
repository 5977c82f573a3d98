//! Why a request could not be handed out.

use vstd::prelude::*;

verus! {

#[derive(Clone, Copy, Debug, PartialEq, Eq, Structural)]
pub enum AuthorizationError {
    /// No request is left in the queue.
    EmptyQueue,
    /// The queue holds no request at this position.
    IndexOutOfRange { index: usize },
}

} // verus!
