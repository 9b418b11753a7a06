//! The commands on set values.
pub mod sadd;
pub mod scard;
pub mod sismember;
pub mod smembers;
