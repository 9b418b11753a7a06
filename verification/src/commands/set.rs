//! SET as a whole request: the command's name, the key and the string.
use vstd::prelude::*;

use crate::commands::wrong_args;
use crate::database::{Database, TypeSaved, TypeSavedView};
use crate::messages::redis_messages;
use crate::native_types::redis_type::{simple_string_encoding, text_result};
use crate::native_types::{ErrorStruct, RSimpleString, RedisType};
use crate::text::string_of;

verus! {

/// The SET command, read from a request that starts with its name.
pub struct SetCommand;

/// The error of a request with no words at all.
pub open spec fn empty_request_error() -> (Seq<char>, Seq<char>) {
    ("ERR"@, "'Strings' does not accept empty values"@)
}

impl SetCommand {
    /// Sets the key, the second word, to the string, the third, with no
    /// expiration. A request without both is refused as a wrong number of
    /// arguments for the command it names; one with more words is a syntax
    /// error.
    pub fn run(buffer_vec: Vec<&str>, database: &mut Database) -> (r: Result<String, ErrorStruct>)
        requires
            old(database).wf(),
        ensures
            final(database).wf(),
            buffer_vec@.len() == 0 ==> final(database)@ == old(database)@ && text_result(r) == Err::<
                Seq<char>,
                (Seq<char>, Seq<char>),
            >(empty_request_error()),
            (buffer_vec@.len() == 1 || buffer_vec@.len() == 2) ==> final(database)@ == old(database)@
                && text_result(r) == Err::<Seq<char>, (Seq<char>, Seq<char>)>(
                wrong_args(buffer_vec@[0]@),
            ),
            buffer_vec@.len() >= 4 ==> final(database)@ == old(database)@ && text_result(r) == Err::<
                Seq<char>,
                (Seq<char>, Seq<char>),
            >(("ERR"@, "syntax error"@)),
            buffer_vec@.len() == 3 ==> final(database)@ == old(database)@.insert(
                buffer_vec@[1]@,
                (None, TypeSavedView::String(buffer_vec@[2]@)),
            ) && text_result(r) == Ok::<Seq<char>, (Seq<char>, Seq<char>)>(
                simple_string_encoding("OK"@),
            ),
    {
        if buffer_vec.len() == 0 {
            let e = ErrorStruct::from(redis_messages::not_empty_values_for("Strings"));
            proof {
                reveal_strlit("Strings");
                reveal_strlit("'");
                reveal_strlit("' does not accept empty values");
                reveal_strlit("'Strings' does not accept empty values");
                assert(e.message@ =~= "'Strings' does not accept empty values"@);
            }
            return Err(e);
        }
        if buffer_vec.len() == 1 || buffer_vec.len() == 2 {
            return Err(ErrorStruct::from(redis_messages::arguments_invalid_to(buffer_vec[0])));
        }
        if buffer_vec.len() >= 4 {
            return Err(ErrorStruct::from(redis_messages::syntax_error()));
        }
        let value = string_of(buffer_vec[2]);
        let key = string_of(buffer_vec[1]);
        database.insert(key, TypeSaved::String(value));
        Ok(RSimpleString::encode(redis_messages::ok()))
    }
}

} // verus!
