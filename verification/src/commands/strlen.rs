//! STRLEN on a request that holds only the key.
use vstd::prelude::*;

use crate::commands::strings::strlen::strlen_reply;
use crate::commands::wrongtype;
use crate::database::{touched, Database, TypeSaved};
use crate::native_types::redis_type::text_result;
use crate::native_types::{ErrorStruct, RInteger, RedisType};
use crate::text::{byte_len, string_of};
use crate::time_expiration::expire_info::now_nanos;

verus! {

pub struct Strlen;

impl Strlen {
    /// Returns the length of the string value stored at the key, the last
    /// word of the request, 0 when there is no such key, and the WRONGTYPE
    /// error when the key holds a value that is no string. The key is
    /// touched at the time `now`: an expired key counts as missing.
    pub fn run_at(buffer_vec: &mut Vec<&str>, database: &mut Database, now: u64) -> (r: Result<String, ErrorStruct>)
        requires
            old(database).wf(),
            old(buffer_vec)@.len() > 0,
        ensures
            final(database).wf(),
            final(database).time == old(database).time,
            final(buffer_vec)@ == old(buffer_vec)@.drop_last(),
            final(database)@ == touched(old(database)@, old(buffer_vec)@.last()@, now),
            text_result(r) == strlen_reply(final(database)@, old(buffer_vec)@.last()@),
    {
        let key = string_of(buffer_vec.pop().unwrap());
        match database.get_at(key.as_str(), now) {
            Some(TypeSaved::String(value)) => Ok(RInteger::encode(byte_len(value) as isize)),
            Some(_) => Err(wrongtype()),
            None => Ok(RInteger::encode(0)),
        }
    }

    /// The length of the string at the key, the last word of the request;
    /// see `run_at`. The key is touched now.
    pub fn run(buffer_vec: &mut Vec<&str>, database: &mut Database) -> (r: Result<String, ErrorStruct>)
        requires
            old(database).wf(),
            old(buffer_vec)@.len() > 0,
        ensures
            final(database).wf(),
            final(buffer_vec)@ == old(buffer_vec)@.drop_last(),
            exists|now: u64|
                final(database)@ == touched(old(database)@, old(buffer_vec)@.last()@, now)
                    && text_result(r) == strlen_reply(final(database)@, old(buffer_vec)@.last()@),
            final(database).time >= old(database).time,
            (final(database)@ == touched(old(database)@, old(buffer_vec)@.last()@, final(database).time)
                    && text_result(r) == strlen_reply(final(database)@, old(buffer_vec)@.last()@)),
    {
        let now = database.tick();
        Self::run_at(buffer_vec, database, now)
    }
}

} // verus!
