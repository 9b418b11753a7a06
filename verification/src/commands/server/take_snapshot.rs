//! A SAVE that only acknowledges.
use vstd::prelude::*;

use crate::database::Database;
use crate::messages::redis_messages;
use crate::native_types::redis_type::simple_string_encoding;
use crate::native_types::{ErrorStruct, RSimpleString, RedisType};

verus! {

pub struct Save;

impl Save {
    /// Replies OK and leaves the database as it is.
    pub fn run(&self, _buffer: Vec<String>, database: &mut Database) -> (r: Result<String, ErrorStruct>)
        ensures
            *final(database) == *old(database),
            r matches Ok(reply) && reply@ == simple_string_encoding("OK"@),
    {
        Ok(RSimpleString::encode(redis_messages::ok()))
    }
}

} // verus!
