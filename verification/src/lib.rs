//! An interception layer for an RPC dispatch pipeline: it observes each
//! inbound call, lets the downstream resolution run unchanged, and decides
//! whether the outcome calls for a diagnostic about an unrecognized method.

pub mod call;
pub mod json;
pub mod middleware;
pub mod outcome;
