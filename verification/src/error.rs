//! What can end a run early.

use vstd::prelude::*;

verus! {

/// The errors a run of the loop can end with.
#[derive(Clone, Debug, PartialEq, Eq)]
pub enum GameError {
    /// The event source could not be acquired; the loop never ran.
    StartupFailure(String),
    /// The handler's `update` or `draw` failed; the loop stopped there.
    HandlerFailure(String),
}

/// The result of an operation that may fail with a [`GameError`].
pub type GameResult<T> = Result<T, GameError>;

} // verus!
