//! GETDEL: the string stored at a key, which is removed.
use vstd::prelude::*;

use super::get::encoded_nil;
use crate::commands::{no_more_values, pop_value, wrong_args};
use crate::database::{Database, KeySpace, TypeSaved, TypeSavedView};
use crate::native_types::redis_type::{bulk_encoding, nil_text, text_result};
use crate::native_types::{ErrorStruct, RBulkString, RedisType};
use crate::text::string_of;

verus! {

pub struct Getdel;

/// The reply of GETDEL on the key space `m`.
pub open spec fn getdel_reply(m: KeySpace, key: Seq<char>) -> Result<Seq<char>, (Seq<char>, Seq<char>)> {
    if !m.contains_key(key) {
        Ok(bulk_encoding(nil_text()))
    } else {
        match m[key].1 {
            TypeSavedView::String(s) => Ok(bulk_encoding(s)),
            _ => Err(("ERR"@, "key provided is not from string"@)),
        }
    }
}

impl Getdel {
    /// Removes the key, the only argument, and returns the string it held;
    /// a key of another kind of value is removed too, with an error reply.
    pub fn run(&self, buffer: Vec<String>, database: &mut Database) -> (r: Result<String, ErrorStruct>)
        requires
            old(database).wf(),
        ensures
            final(database).wf(),
            buffer@.len() == 0 ==> final(database)@ == old(database)@ && text_result(r) == Err::<
                Seq<char>,
                (Seq<char>, Seq<char>),
            >(wrong_args("append"@)),
            buffer@.len() >= 2 ==> final(database)@ == old(database)@ && text_result(r) == Err::<
                Seq<char>,
                (Seq<char>, Seq<char>),
            >(wrong_args("getdel"@)),
            buffer@.len() == 1 ==> final(database)@ == old(database)@.remove(buffer@[0]@)
                && text_result(r) == getdel_reply(old(database)@, buffer@[0]@),
    {
        let mut buffer = buffer;
        let key = pop_value(&mut buffer)?;
        no_more_values(&buffer, "getdel")?;
        match database.remove(key.as_str()) {
            Some(TypeSaved::String(value)) => Ok(RBulkString::encode(value)),
            Some(_) => Err(ErrorStruct::new(string_of("ERR"), string_of("key provided is not from string"))),
            None => Ok(encoded_nil()),
        }
    }
}

} // verus!
