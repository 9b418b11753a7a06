//! FLUSHDB: removes every key.
use vstd::prelude::*;

use crate::database::{Database, KeySpace};
use crate::native_types::redis_type::simple_string_encoding;
use crate::native_types::{ErrorStruct, RSimpleString, RedisType};
use crate::text::string_of;

verus! {

pub struct FlushDb;

impl FlushDb {
    /// Removes every key; ignores the arguments.
    pub fn run(&self, _buffer: Vec<String>, database: &mut Database) -> (r: Result<String, ErrorStruct>)
        ensures
            final(database).wf(),
            final(database)@ == KeySpace::empty(),
            final(database).redis_config == old(database).redis_config,
            r matches Ok(reply) && reply@ == simple_string_encoding("OK"@),
    {
        database.clear();
        Ok(RSimpleString::encode(string_of("OK")))
    }
}

} // verus!
