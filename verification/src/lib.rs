//! A verified, in-memory registry mapping validator keys to payout
//! addresses, together with the pure request-handling logic of the small
//! HTTP service that exposes it.

pub mod handlers;
pub mod identity;
pub mod pipeline;
pub mod registry;
