//! What the parts of the server tell each other.
pub mod log_messages;
