//! DBSIZE: the number of keys.
use vstd::prelude::*;

use crate::commands::{check_error_cases_without_elements, wrong_args};
use crate::database::Database;
use crate::native_types::redis_type::{integer_encoding, text_result};
use crate::native_types::{ErrorStruct, RInteger, RedisType};

verus! {

pub struct Dbsize;

impl Dbsize {
    /// The number of keys in the database; takes no argument.
    pub fn run(&self, buffer: Vec<String>, database: &mut Database) -> (r: Result<String, ErrorStruct>)
        requires
            old(database).wf(),
        ensures
            *final(database) == *old(database),
            buffer@.len() >= 1 ==> text_result(r) == Err::<Seq<char>, (Seq<char>, Seq<char>)>(
                wrong_args("dbisze"@),
            ),
            buffer@.len() == 0 ==> text_result(r) == Ok::<Seq<char>, (Seq<char>, Seq<char>)>(
                integer_encoding((old(database)@.len() as isize) as int),
            ),
    {
        check_error_cases_without_elements(&buffer, "dbisze", 1)?;
        Ok(RInteger::encode(database.size() as isize))
    }
}

} // verus!
