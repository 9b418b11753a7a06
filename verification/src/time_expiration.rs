//! Expiration of keys.
pub mod expire_info;
