//! The decisions of the parking protocol. A blocking call tries the
//! non-blocking operation; an outcome that settles the call is returned, and
//! one that does not (`Empty`, `Full`) sends the caller to park, after which
//! it tries again: a wakeup only hints that progress may be possible.

use crate::error::{RecvError, SendError, TryRecvError, TrySendError};
use vstd::prelude::*;

verus! {

/// What a blocking receive does with the outcome of one attempt: `Some` is
/// its result, `None` means park and try again.
pub fn recv_outcome<T>(r: Result<T, TryRecvError>) -> (o: Option<Result<T, RecvError>>)
    ensures
        r matches Ok(v) ==> o == Some(Ok::<T, RecvError>(v)),
        r == Err::<T, TryRecvError>(TryRecvError::Disconnected) ==> o == Some(
            Err::<T, RecvError>(RecvError),
        ),
        r == Err::<T, TryRecvError>(TryRecvError::Empty) ==> o is None,
{
    match r {
        Ok(v) => Some(Ok(v)),
        Err(TryRecvError::Disconnected) => Some(Err(RecvError)),
        Err(TryRecvError::Empty) => None,
    }
}

/// What a blocking send does with the outcome of one attempt: `Ok` is its
/// result, `Err` hands the value back to park with and try again.
pub fn send_outcome<T>(r: Result<(), TrySendError<T>>) -> (o: Result<Result<(), SendError<T>>, T>)
    ensures
        r is Ok ==> o == Ok::<Result<(), SendError<T>>, T>(Ok(())),
        r matches Err(TrySendError::Disconnected(t)) ==> o == Ok::<Result<(), SendError<T>>, T>(
            Err(SendError(t)),
        ),
        r matches Err(TrySendError::Full(t)) ==> o == Err::<Result<(), SendError<T>>, T>(t),
{
    match r {
        Ok(()) => Ok(Ok(())),
        Err(TrySendError::Disconnected(t)) => Ok(Err(SendError(t))),
        Err(TrySendError::Full(t)) => Err(t),
    }
}

} // verus!
