//! The outcomes that channel operations report.

use vstd::prelude::*;

verus! {

/// Why a non-blocking send did not go through; the value comes back unchanged.
#[derive(PartialEq, Eq, Debug, Clone, Copy)]
pub enum TrySendError<T> {
    /// The channel holds as many items as its bound allows.
    Full(T),
    /// The consumer is gone: the value can never be received.
    Disconnected(T),
}

/// A blocking send failed because the consumer is gone; the value comes back.
#[derive(PartialEq, Eq, Debug, Clone, Copy)]
pub struct SendError<T>(pub T);

/// Why a non-blocking receive returned no item.
#[derive(PartialEq, Eq, Debug, Clone, Copy)]
pub enum TryRecvError {
    /// No item is buffered yet, and a producer may still send one.
    Empty,
    /// No item is buffered and every producer is gone.
    Disconnected,
}

/// A blocking receive failed because every producer is gone.
#[derive(PartialEq, Eq, Debug, Clone, Copy)]
pub struct RecvError;

} // verus!
