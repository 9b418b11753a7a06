//! SET: sets the string at a key.
use vstd::prelude::*;

use crate::commands::wrong_args;
use crate::database::{Database, TypeSaved, TypeSavedView};
use crate::messages::redis_messages;
use crate::native_types::redis_type::{simple_string_encoding, text_result};
use crate::native_types::{ErrorStruct, RSimpleString, RedisType};
use crate::text::string_of;

verus! {

/// The SET command.
pub struct SetCommand;

impl SetCommand {
    /// Sets the key, the first argument, to the string, the second, with no
    /// expiration; replaces any old value.
    pub fn run(&self, buffer: Vec<&str>, database: &mut Database) -> (r: Result<String, ErrorStruct>)
        requires
            old(database).wf(),
        ensures
            final(database).wf(),
            buffer@.len() < 2 ==> final(database)@ == old(database)@ && text_result(r) == Err::<
                Seq<char>,
                (Seq<char>, Seq<char>),
            >(wrong_args("set"@)),
            buffer@.len() > 2 ==> final(database)@ == old(database)@ && text_result(r) == Err::<
                Seq<char>,
                (Seq<char>, Seq<char>),
            >(("ERR"@, "syntax error"@)),
            buffer@.len() == 2 ==> final(database)@ == old(database)@.insert(
                buffer@[0]@,
                (None, TypeSavedView::String(buffer@[1]@)),
            ) && text_result(r) == Ok::<Seq<char>, (Seq<char>, Seq<char>)>(
                simple_string_encoding("OK"@),
            ),
    {
        check_error_cases(&buffer)?;
        let value = string_of(buffer[1]);
        let key = string_of(buffer[0]);
        database.insert(key, TypeSaved::String(value));
        Ok(RSimpleString::encode(redis_messages::ok()))
    }
}

fn check_error_cases(buffer_vec: &Vec<&str>) -> (r: Result<(), ErrorStruct>)
    ensures
        match r {
            Ok(()) => buffer_vec@.len() == 2,
            Err(e) => if buffer_vec@.len() < 2 {
                (e.prefix@, e.message@) == wrong_args("set"@)
            } else {
                buffer_vec@.len() > 2 && (e.prefix@, e.message@) == ("ERR"@, "syntax error"@)
            },
        },
{
    if buffer_vec.len() < 2 {
        return Err(ErrorStruct::from(redis_messages::arguments_invalid_to("set")));
    }
    if buffer_vec.len() != 2 {
        return Err(ErrorStruct::from(redis_messages::syntax_error()));
    }
    Ok(())
}

} // verus!
