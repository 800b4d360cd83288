//! Codec for a fleet of coffee-machine hardware modules that speak a
//! fixed-width, checksummed ASCII line protocol over a publish/subscribe
//! field bus.  The crate builds command frames, validates and unpacks status
//! frames, and dispatches inbound frames to the codec of the module that owns
//! the topic namespace.

pub mod bits;
pub mod digits;
pub mod lrc;
pub mod module_msg_converter;
pub mod module_struct;
pub mod registry;
