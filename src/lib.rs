//! Verification core of a zkLogin signature verifier: the identity-key
//! cache, the decisions of its background refresher, epoch resolution and
//! the request pipeline that routes a request to the proof verifier.

pub mod epoch;
pub mod error;
pub mod keys;
pub mod network;
pub mod encoding;
pub mod pipeline;
pub mod refresh;
pub mod shared;
