//! SISMEMBER: whether a text is a member of the set at a key.
use vstd::prelude::*;

use crate::commands::{check_empty, wrong_args, wrong_args_error, wrongtype, wrongtype_error};
use crate::database::{touched, Database, KeySpace, TypeSaved, TypeSavedView};
use crate::native_types::redis_type::{integer_encoding, text_result};
use crate::native_types::{ErrorStruct, RInteger, RedisType};
use crate::time_expiration::expire_info::now_nanos;

verus! {

pub struct Sismember;

/// The reply of SISMEMBER on the key space `m`: 1 when `member` is in the
/// set at `key`, 0 when it is not or there is no such key.
pub open spec fn sismember_reply(m: KeySpace, key: Seq<char>, member: Seq<char>) -> Result<Seq<char>, (Seq<char>, Seq<char>)> {
    if !m.contains_key(key) {
        Ok(integer_encoding(0))
    } else {
        match m[key].1 {
            TypeSavedView::Sets(s) => Ok(integer_encoding(if s.contains(member) { 1 } else { 0 })),
            _ => Err(wrongtype_error()),
        }
    }
}

impl Sismember {
    /// Whether the member, the second argument, is in the set at the key,
    /// the first, as the integer 1 or 0. The key is touched at the time `now`: an expired key
    /// counts as missing.
    pub fn run_at(&self, buffer: Vec<String>, database: &mut Database, now: u64) -> (r: Result<String, ErrorStruct>)
        requires
            old(database).wf(),
        ensures
            final(database).wf(),
            final(database).time == old(database).time,
            buffer@.len() != 2 ==> final(database)@ == old(database)@ && text_result(r) == Err::<
                Seq<char>,
                (Seq<char>, Seq<char>),
            >(wrong_args("sismember"@)),
            buffer@.len() == 2 ==> final(database)@ == touched(old(database)@, buffer@[0]@, now)
                && text_result(r) == sismember_reply(final(database)@, buffer@[0]@, buffer@[1]@),
    {
        check_error_cases(&buffer)?;
        let key = &buffer[0];
        match database.get_at(key.as_str(), now) {
            Some(TypeSaved::Sets(set)) => {
                let member = &buffer[1];
                let result: isize = if set.contains(member.as_str()) {
                    1
                } else {
                    0
                };
                Ok(RInteger::encode(result))
            },
            Some(_) => Err(wrongtype()),
            None => Ok(RInteger::encode(0)),
        }
    }

    /// Whether the member, the second argument, is in the set at the key,
    /// the first, as the integer 1 or 0. The key is touched now: an expired key
    /// counts as missing.
    pub fn run(&self, buffer: Vec<String>, database: &mut Database) -> (r: Result<String, ErrorStruct>)
        requires
            old(database).wf(),
        ensures
            final(database).wf(),
            buffer@.len() != 2 ==> final(database)@ == old(database)@ && text_result(r) == Err::<
                Seq<char>,
                (Seq<char>, Seq<char>),
            >(wrong_args("sismember"@)),
            buffer@.len() == 2 ==> exists|now: u64|
                final(database)@ == touched(old(database)@, buffer@[0]@, now)
                && text_result(r) == sismember_reply(final(database)@, buffer@[0]@, buffer@[1]@),
            final(database).time >= old(database).time,
            buffer@.len() == 2 ==> (final(database)@ == touched(old(database)@, buffer@[0]@, final(database).time)
                && text_result(r) == sismember_reply(final(database)@, buffer@[0]@, buffer@[1]@)),
    {
        let now = database.tick();
        self.run_at(buffer, database, now)
    }
}

fn check_error_cases(buffer: &Vec<String>) -> (r: Result<(), ErrorStruct>)
    ensures
        match r {
            Ok(()) => buffer@.len() == 2,
            Err(e) => buffer@.len() != 2 && (e.prefix@, e.message@) == wrong_args("sismember"@),
        },
{
    check_empty(buffer, "sismember")?;
    if buffer.len() != 2 {
        return Err(wrong_args_error("sismember"));
    }
    Ok(())
}

} // verus!
