//! The replies and errors that the server sends, with their severity.
use vstd::prelude::*;

use crate::native_types::error_severity::ErrorSeverity;
use crate::text::string_of;

pub mod redis_messages;

verus! {

/// A message of the server: a prefix (such as `ERR`), the text that follows
/// it, and how severe the situation is.
pub struct MessageRedis {
    pub prefix: String,
    pub message: String,
    pub severity: ErrorSeverity,
}

impl MessageRedis {
    /// Prefix getter.
    pub fn get_prefix(&self) -> (r: String)
        ensures
            r@ == self.prefix@,
    {
        string_of(self.prefix.as_str())
    }

    /// Message getter.
    pub fn get_message(&self) -> (r: String)
        ensures
            r@ == self.message@,
    {
        string_of(self.message.as_str())
    }

    /// Severity getter.
    pub fn get_severity(&self) -> (r: ErrorSeverity)
        ensures
            r == self.severity,
    {
        self.severity
    }

    /// The prefix, a space, then the message.
    pub fn get_message_complete(&self) -> (r: String)
        ensures
            r@ == self.prefix@ + seq![' '] + self.message@,
    {
        let mut r = string_of(self.prefix.as_str());
        crate::text::push_char(&mut r, ' ');
        crate::text::push_text(&mut r, self.message.as_str());
        r
    }
}

} // verus!
