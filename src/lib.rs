//! Rendezvous over a distributed directory: an identity is hashed into a
//! fixed-size key, announced on a schedule, looked up, and every newly found
//! peer address is greeted once with a plaintext datagram.
use vstd::prelude::*;

pub mod hexcodec;
pub mod identity;
pub mod schedule;
pub mod discovery;
pub mod greeting;
pub mod session;

verus! {

} // verus!
