//! Multi-producer, single-consumer channels for cooperatively scheduled
//! coroutines: the verified core of the channel state and of its parking
//! protocol.

pub mod error;
pub mod wait_list;
pub mod chan;
pub mod protocol;
pub mod laws;
