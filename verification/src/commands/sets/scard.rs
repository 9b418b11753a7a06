//! SCARD: the number of members of the set at a key.
use vstd::prelude::*;

use crate::commands::{check_empty, wrong_args, wrong_args_error, wrongtype, wrongtype_error};
use crate::database::{touched, Database, KeySpace, TypeSaved, TypeSavedView};
use crate::native_types::redis_type::{integer_encoding, text_result};
use crate::native_types::{ErrorStruct, RInteger, RedisType};
use crate::time_expiration::expire_info::now_nanos;

verus! {

pub struct Scard;

/// The reply of SCARD on the key space `m`: the number of members of the
/// set at `key`, 0 when there is no such key.
pub open spec fn scard_reply(m: KeySpace, key: Seq<char>) -> Result<Seq<char>, (Seq<char>, Seq<char>)> {
    if !m.contains_key(key) {
        Ok(integer_encoding(0))
    } else {
        match m[key].1 {
            TypeSavedView::Sets(s) => Ok(integer_encoding((s.len() as isize) as int)),
            _ => Err(wrongtype_error()),
        }
    }
}

impl Scard {
    /// The cardinality of the set at the key, the only argument, or 0 when
    /// the key does not exist. The key is touched at the time `now`: an expired key counts as
    /// missing.
    pub fn run_at(&self, buffer: Vec<String>, database: &mut Database, now: u64) -> (r: Result<String, ErrorStruct>)
        requires
            old(database).wf(),
        ensures
            final(database).wf(),
            final(database).time == old(database).time,
            buffer@.len() != 1 ==> final(database)@ == old(database)@ && text_result(r) == Err::<
                Seq<char>,
                (Seq<char>, Seq<char>),
            >(wrong_args("scard"@)),
            buffer@.len() == 1 ==> final(database)@ == touched(old(database)@, buffer@[0]@, now)
                && text_result(r) == scard_reply(final(database)@, buffer@[0]@),
    {
        check_error_cases(&buffer)?;
        let key = &buffer[0];
        match database.get_at(key.as_str(), now) {
            Some(TypeSaved::Sets(set)) => {
                let n = set.len();
                Ok(RInteger::encode(n as isize))
            },
            Some(_) => Err(wrongtype()),
            None => Ok(RInteger::encode(0)),
        }
    }

    /// The cardinality of the set at the key, the only argument, or 0 when
    /// the key does not exist. The key is touched now: an expired key counts as
    /// missing.
    pub fn run(&self, buffer: Vec<String>, database: &mut Database) -> (r: Result<String, ErrorStruct>)
        requires
            old(database).wf(),
        ensures
            final(database).wf(),
            buffer@.len() != 1 ==> final(database)@ == old(database)@ && text_result(r) == Err::<
                Seq<char>,
                (Seq<char>, Seq<char>),
            >(wrong_args("scard"@)),
            buffer@.len() == 1 ==> exists|now: u64|
                final(database)@ == touched(old(database)@, buffer@[0]@, now)
                && text_result(r) == scard_reply(final(database)@, buffer@[0]@),
            final(database).time >= old(database).time,
            buffer@.len() == 1 ==> (final(database)@ == touched(old(database)@, buffer@[0]@, final(database).time)
                && text_result(r) == scard_reply(final(database)@, buffer@[0]@)),
    {
        let now = database.tick();
        self.run_at(buffer, database, now)
    }
}

fn check_error_cases(buffer: &Vec<String>) -> (r: Result<(), ErrorStruct>)
    ensures
        match r {
            Ok(()) => buffer@.len() == 1,
            Err(e) => buffer@.len() != 1 && (e.prefix@, e.message@) == wrong_args("scard"@),
        },
{
    check_empty(buffer, "scard")?;
    if buffer.len() != 1 {
        return Err(wrong_args_error("scard"));
    }
    Ok(())
}

} // verus!
