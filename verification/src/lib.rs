//! A gateway that grafts services of one message bus onto another: the rules
//! by which each relayed message is rewritten, the caches that lead replies
//! back to their callers, and the life cycle of the forwarding loops.

pub mod bridge;
pub mod correlation;
pub mod gateway;
pub mod laws;
pub mod message;
pub mod names;
mod serial;
pub mod side;
pub mod store;
