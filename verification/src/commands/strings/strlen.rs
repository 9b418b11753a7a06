//! STRLEN: the length of the string at a key.
use vstd::prelude::*;

use crate::commands::{no_more_values, wrong_args, wrongtype, wrongtype_error};
use crate::database::{touched, Database, KeySpace, TypeSaved, TypeSavedView};
use crate::native_types::redis_type::{integer_encoding, text_result};
use crate::native_types::{ErrorStruct, RInteger, RedisType};
use crate::text::{byte_count, byte_len};
use crate::time_expiration::expire_info::now_nanos;

verus! {

pub struct Strlen;

/// The reply of STRLEN on the key space `m`: the length in bytes of the
/// string at `key`, 0 when there is no such key.
pub open spec fn strlen_reply(m: KeySpace, key: Seq<char>) -> Result<Seq<char>, (Seq<char>, Seq<char>)> {
    if !m.contains_key(key) {
        Ok(integer_encoding(0))
    } else {
        match m[key].1 {
            TypeSavedView::String(s) => Ok(integer_encoding((byte_count(s) as isize) as int)),
            _ => Err(wrongtype_error()),
        }
    }
}

impl Strlen {
    /// Returns the length of the string value stored at **key**, the only
    /// argument, or 0 when key does not exist. The key is touched at the time `now`: an expired
    /// key counts as missing.
    pub fn run_at(&self, buffer: Vec<String>, database: &mut Database, now: u64) -> (r: Result<String, ErrorStruct>)
        requires
            old(database).wf(),
            buffer@.len() > 0,
        ensures
            final(database).wf(),
            final(database).time == old(database).time,
            buffer@.len() > 1 ==> final(database)@ == old(database)@ && text_result(r) == Err::<
                Seq<char>,
                (Seq<char>, Seq<char>),
            >(wrong_args("strlen"@)),
            buffer@.len() == 1 ==> final(database)@ == touched(old(database)@, buffer@[0]@, now)
                && text_result(r) == strlen_reply(final(database)@, buffer@[0]@),
    {
        let mut buffer = buffer;
        let key = buffer.pop().unwrap();
        no_more_values(&buffer, "strlen")?;
        match database.get_at(key.as_str(), now) {
            Some(TypeSaved::String(old_value)) => Ok(RInteger::encode(byte_len(old_value) as isize)),
            Some(_) => Err(wrongtype()),
            None => Ok(RInteger::encode(0)),
        }
    }

    /// Returns the length of the string value stored at **key**, the only
    /// argument, or 0 when key does not exist. The key is touched now: an expired
    /// key counts as missing.
    pub fn run(&self, buffer: Vec<String>, database: &mut Database) -> (r: Result<String, ErrorStruct>)
        requires
            old(database).wf(),
            buffer@.len() > 0,
        ensures
            final(database).wf(),
            buffer@.len() > 1 ==> final(database)@ == old(database)@ && text_result(r) == Err::<
                Seq<char>,
                (Seq<char>, Seq<char>),
            >(wrong_args("strlen"@)),
            buffer@.len() == 1 ==> exists|now: u64|
                final(database)@ == touched(old(database)@, buffer@[0]@, now)
                && text_result(r) == strlen_reply(final(database)@, buffer@[0]@),
            final(database).time >= old(database).time,
            buffer@.len() == 1 ==> (final(database)@ == touched(old(database)@, buffer@[0]@, final(database).time)
                && text_result(r) == strlen_reply(final(database)@, buffer@[0]@)),
    {
        let now = database.tick();
        self.run_at(buffer, database, now)
    }
}

} // verus!
