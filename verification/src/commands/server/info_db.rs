//! INFO about the database: a title and the number of keys.
use vstd::prelude::*;

use crate::database::Database;
use crate::native_types::redis_type::{array_encoding, strings_view};
use crate::native_types::{ErrorStruct, RArray, RedisType};
use crate::text::nat_to_decimal;

verus! {

pub struct InfoDb;

impl InfoDb {
    /// The lines about the database, as an array; ignores the arguments.
    pub fn run(&self, _buffer: Vec<String>, database: &mut Database) -> (r: Result<String, ErrorStruct>)
        requires
            old(database).wf(),
        ensures
            *final(database) == *old(database),
            r matches Ok(reply) && reply@ == array_encoding(
                seq!["DATABASE:"@, "Number of keys: "@ + nat_to_decimal(old(database)@.len())],
            ),
    {
        let lines = database.info()?;
        assert(strings_view(lines@) =~= seq![
            "DATABASE:"@,
            "Number of keys: "@ + nat_to_decimal(old(database)@.len()),
        ]);
        Ok(RArray::encode(lines))
    }
}

} // verus!
