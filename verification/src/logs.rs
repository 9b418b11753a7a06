//! Where the log goes.
pub mod log_center;
