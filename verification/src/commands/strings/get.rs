//! GET: the string stored at a key.
use vstd::prelude::*;

use crate::commands::{wrong_args, wrongtype, wrongtype_error};
use crate::database::{touched, Database, KeySpace, TypeSaved, TypeSavedView};
use crate::messages::redis_messages;
use crate::native_types::redis_type::{bulk_encoding, nil_text, text_result};
use crate::native_types::{ErrorStruct, RBulkString, RedisType};
use crate::time_expiration::expire_info::now_nanos;

verus! {

pub struct Get;

/// The reply of GET on the key space `m`: the string at `key` as a bulk
/// string, the missing bulk string when there is no such key.
pub open spec fn get_reply(m: KeySpace, key: Seq<char>) -> Result<Seq<char>, (Seq<char>, Seq<char>)> {
    if !m.contains_key(key) {
        Ok(bulk_encoding(nil_text()))
    } else {
        match m[key].1 {
            TypeSavedView::String(s) => Ok(bulk_encoding(s)),
            _ => Err(wrongtype_error()),
        }
    }
}

/// The missing value, as a bulk string.
pub fn encoded_nil() -> (r: String)
    ensures
        r@ == bulk_encoding(nil_text()),
{
    let nil = redis_messages::nil();
    proof {
        reveal_strlit("(nil)");
    }
    assert(nil@ =~= nil_text());
    RBulkString::encode(nil)
}

impl Get {
    /// The string stored at the key, the only argument. The key is touched
    /// at the time `now`: an expired key counts as missing.
    pub fn run_at(&self, buffer: Vec<String>, database: &mut Database, now: u64) -> (r: Result<String, ErrorStruct>)
        requires
            old(database).wf(),
        ensures
            final(database).wf(),
            final(database).time == old(database).time,
            buffer@.len() != 1 ==> final(database)@ == old(database)@ && text_result(r) == Err::<
                Seq<char>,
                (Seq<char>, Seq<char>),
            >(wrong_args("get"@)),
            buffer@.len() == 1 ==> final(database)@ == touched(old(database)@, buffer@[0]@, now)
                && text_result(r) == get_reply(final(database)@, buffer@[0]@),
    {
        check_error_cases(&buffer)?;
        let key = &buffer[0];
        match database.get_at(key.as_str(), now) {
            Some(TypeSaved::String(item)) => Ok(RBulkString::encode(item.clone())),
            Some(_) => Err(wrongtype()),
            None => Ok(encoded_nil()),
        }
    }

    /// The string stored at the key, the only argument; see `run_at`. The
    /// key is touched now.
    pub fn run(&self, buffer: Vec<String>, database: &mut Database) -> (r: Result<String, ErrorStruct>)
        requires
            old(database).wf(),
        ensures
            final(database).wf(),
            buffer@.len() != 1 ==> final(database)@ == old(database)@ && text_result(r) == Err::<
                Seq<char>,
                (Seq<char>, Seq<char>),
            >(wrong_args("get"@)),
            buffer@.len() == 1 ==> exists|now: u64|
                final(database)@ == touched(old(database)@, buffer@[0]@, now) && text_result(r)
                    == get_reply(final(database)@, buffer@[0]@),
            final(database).time >= old(database).time,
            buffer@.len() == 1 ==> (final(database)@ == touched(old(database)@, buffer@[0]@, final(database).time) && text_result(r)
                    == get_reply(final(database)@, buffer@[0]@)),
    {
        let now = database.tick();
        self.run_at(buffer, database, now)
    }
}

fn check_error_cases(buffer: &Vec<String>) -> (r: Result<(), ErrorStruct>)
    ensures
        match r {
            Ok(()) => buffer@.len() == 1,
            Err(e) => buffer@.len() != 1 && (e.prefix@, e.message@) == wrong_args("get"@),
        },
{
    if buffer.len() != 1 {
        return Err(ErrorStruct::from(redis_messages::wrong_number_args_for("get")));
    }
    Ok(())
}

} // verus!
