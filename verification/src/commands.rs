//! The commands of the server and the checks they share on their arguments.
use vstd::prelude::*;

use crate::database::{Database, TypeSaved, TypeSavedView};
use crate::messages::redis_messages::{self, wrong_args_text};
use crate::native_types::redis_type::{bulk_encoding, error_view};
use crate::native_types::{ErrorStruct, RBulkString, RedisType};
use crate::text::{parse_isize, parse_isize_spec, string_of};

pub mod clock_laws;
pub mod laws;
pub mod server;
pub mod set;
pub mod sets;
pub mod strings;
pub mod strlen;
pub mod v2;

verus! {

/// The error of a wrong number of arguments for the command `name`.
pub open spec fn wrong_args(name: Seq<char>) -> (Seq<char>, Seq<char>) {
    ("ERR"@, wrong_args_text(name))
}

/// The error of a command run on a key that holds another kind of value.
pub open spec fn wrongtype_error() -> (Seq<char>, Seq<char>) {
    ("WRONGTYPE"@, "Operation against a key holding the wrong kind of value"@)
}

/// The error of a value that is not an integer.
pub open spec fn not_integer_error() -> (Seq<char>, Seq<char>) {
    ("ERR"@, "value is not an integer or out of range"@)
}

pub open spec fn texts_of(buffer: Seq<String>) -> Seq<Seq<char>> {
    buffer.map_values(|s: String| s@)
}

pub fn wrong_args_error(name: &str) -> (e: ErrorStruct)
    ensures
        error_view(e) == wrong_args(name@),
{
    ErrorStruct::from(redis_messages::arguments_invalid_to(name))
}

pub fn wrongtype() -> (e: ErrorStruct)
    ensures
        error_view(e) == wrongtype_error(),
{
    ErrorStruct::from(redis_messages::wrongtype())
}

/// Refuses an empty list of arguments for the command `name`.
pub fn check_empty(buffer: &Vec<String>, name: &str) -> (r: Result<(), ErrorStruct>)
    ensures
        match r {
            Ok(()) => buffer@.len() > 0,
            Err(e) => buffer@.len() == 0 && error_view(e) == wrong_args(name@),
        },
{
    if buffer.len() == 0 {
        Err(wrong_args_error(name))
    } else {
        Ok(())
    }
}

/// Refuses any argument, for a command that takes none.
pub fn check_not_empty(buffer: &Vec<String>) -> (r: Result<(), ErrorStruct>)
    ensures
        match r {
            Ok(()) => buffer@.len() == 0,
            Err(e) => buffer@.len() > 0 && error_view(e) == ("ERR"@, "syntax error"@),
        },
{
    if buffer.len() == 0 {
        Ok(())
    } else {
        Err(ErrorStruct::from(redis_messages::syntax_error()))
    }
}

/// Refuses `max` arguments or more for the command `name`.
pub fn check_error_cases_without_elements(buffer: &Vec<String>, name: &str, max: usize) -> (r: Result<(), ErrorStruct>)
    ensures
        match r {
            Ok(()) => buffer@.len() < max,
            Err(e) => buffer@.len() >= max && error_view(e) == wrong_args(name@),
        },
{
    if buffer.len() >= max {
        Err(wrong_args_error(name))
    } else {
        Ok(())
    }
}

/// Takes the last argument; a missing one is reported as a wrong number of
/// arguments for `append`.
pub fn pop_value(buffer: &mut Vec<String>) -> (r: Result<String, ErrorStruct>)
    ensures
        match r {
            Ok(v) => old(buffer)@.len() > 0 && v == old(buffer)@.last() && final(buffer)@
                == old(buffer)@.drop_last(),
            Err(e) => old(buffer)@.len() == 0 && final(buffer)@ == old(buffer)@ && error_view(e)
                == wrong_args("append"@),
        },
{
    match buffer.pop() {
        Some(v) => Ok(v),
        None => Err(wrong_args_error("append")),
    }
}

/// Refuses arguments left over by the command `name`.
pub fn no_more_values(buffer: &Vec<String>, name: &str) -> (r: Result<(), ErrorStruct>)
    ensures
        match r {
            Ok(()) => buffer@.len() == 0,
            Err(e) => buffer@.len() > 0 && error_view(e) == wrong_args(name@),
        },
{
    if buffer.len() == 0 {
        Ok(())
    } else {
        Err(wrong_args_error(name))
    }
}

/// The integer that `value` denotes.
pub fn get_as_integer(value: &String) -> (r: Result<isize, ErrorStruct>)
    ensures
        match r {
            Ok(n) => parse_isize_spec(value@) == Some(n as int),
            Err(e) => parse_isize_spec(value@) is None && error_view(e) == not_integer_error(),
        },
{
    match parse_isize(value.as_str()) {
        Some(n) => Ok(n),
        None => Err(ErrorStruct::new(string_of("ERR"), string_of("value is not an integer or out of range"))),
    }
}

/// Sets `key` to the string `new_value`; returns the string it held, as a
/// bulk string.
pub fn replace_value(database: &mut Database, key: String, new_value: String) -> (r: Result<String, ErrorStruct>)
    requires
        old(database).wf(),
        old(database)@.contains_key(key@),
        old(database)@[key@].1 is String,
    ensures
        final(database).wf(),
        final(database)@ == old(database)@.insert(key@, (None, TypeSavedView::String(new_value@))),
        final(database).time == old(database).time,
        r matches Ok(reply) && reply@ == bulk_encoding(old(database)@[key@].1->String_0),
{
    match database.insert(key, TypeSaved::String(new_value)) {
        Some(TypeSaved::String(old_value)) => Ok(RBulkString::encode(old_value)),
        _ => Ok(RBulkString::encode(String::new())),
    }
}

} // verus!
