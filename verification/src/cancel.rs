//! The outcome of racing a unit of work against a cancellation signal.
//!
//! The asynchronous race itself is run by the caller; which branch won is
//! handed in as an event, and the outcome is decided here, where it is
//! verified.

use vstd::prelude::*;

use crate::error::MyError;

verus! {

/// Which branch of the race finished first: the cancellation signal, or
/// the work with its own result.
pub enum RaceEvent<T> {
    /// The cancellation signal fired before the work completed.
    Cancelled,
    /// The work completed first, with this result.
    Completed(Result<T, MyError>),
}

/// Decides the outcome of a cancellable run. If the cancellation signal
/// fired first the outcome is the distinct `Cancelled` error and the
/// work's result is discarded; if the work completed first its own
/// result, success or failure, is returned unchanged. Never both.
pub fn race_outcome<T>(ev: RaceEvent<T>) -> (r: Result<T, MyError>)
    ensures
        ev is Cancelled ==> (r matches Err(e) && e is Cancelled),
        ev matches RaceEvent::Completed(res) ==> r == res,
{
    match ev {
        RaceEvent::Cancelled => Err(MyError::Cancelled),
        RaceEvent::Completed(res) => res,
    }
}

} // verus!
