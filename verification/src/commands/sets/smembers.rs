//! SMEMBERS: the members of the set at a key.
use vstd::prelude::*;

use crate::commands::{check_empty, wrong_args, wrong_args_error, wrongtype, wrongtype_error};
use crate::database::{touched, Database, KeySpace, TypeSaved, TypeSavedView};
use crate::native_types::redis_type::{array_encoding, strings_view, text_result};
use crate::native_types::{ErrorStruct, RArray, RedisType};
use crate::time_expiration::expire_info::now_nanos;

verus! {

pub struct Smembers;

/// Whether `reply` is a reply of SMEMBERS on the key space `m`: the members
/// of the set at `key`, each once, in some order, as an array of bulk
/// strings; the empty array when there is no such key.
pub open spec fn smembers_reply(m: KeySpace, key: Seq<char>, reply: Result<Seq<char>, (Seq<char>, Seq<char>)>) -> bool {
    if !m.contains_key(key) {
        reply == Ok::<Seq<char>, (Seq<char>, Seq<char>)>(array_encoding(Seq::empty()))
    } else {
        match m[key].1 {
            TypeSavedView::Sets(s) => exists|v: Seq<Seq<char>>|
                #![trigger array_encoding(v)]
                v.no_duplicates() && v.to_set() == s && reply == Ok::<Seq<char>, (Seq<char>, Seq<char>)>(
                    array_encoding(v),
                ),
            _ => reply == Err::<Seq<char>, (Seq<char>, Seq<char>)>(wrongtype_error()),
        }
    }
}

impl Smembers {
    /// The members of the set at the key, the only argument, in no
    /// particular order; the empty array when the key does not exist.
    /// The key is touched at the time `now`: an expired key counts as missing.
    pub fn run_at(&self, buffer: Vec<String>, database: &mut Database, now: u64) -> (r: Result<String, ErrorStruct>)
        requires
            old(database).wf(),
        ensures
            final(database).wf(),
            final(database).time == old(database).time,
            buffer@.len() != 1 ==> final(database)@ == old(database)@ && text_result(r) == Err::<
                Seq<char>,
                (Seq<char>, Seq<char>),
            >(wrong_args("smembers"@)),
            buffer@.len() == 1 ==> final(database)@ == touched(old(database)@, buffer@[0]@, now)
                && smembers_reply(final(database)@, buffer@[0]@, text_result(r)),
    {
        check_error_cases(&buffer)?;
        let key = &buffer[0];
        match database.get_at(key.as_str(), now) {
            Some(TypeSaved::Sets(set)) => {
                let members = set.members.clone();
                proof {
                    assert(strings_view(members@) =~= strings_view(set.members@));
                }
                Ok(RArray::encode(members))
            },
            Some(_) => Err(wrongtype()),
            None => {
                let r = RArray::encode(Vec::new());
                assert(strings_view(Seq::<String>::empty()) =~= Seq::<Seq<char>>::empty());
                Ok(r)
            },
        }
    }

    /// The members of the set at the key, the only argument, in no
    /// particular order; the empty array when the key does not exist.
    /// The key is touched now: an expired key counts as missing.
    pub fn run(&self, buffer: Vec<String>, database: &mut Database) -> (r: Result<String, ErrorStruct>)
        requires
            old(database).wf(),
        ensures
            final(database).wf(),
            buffer@.len() != 1 ==> final(database)@ == old(database)@ && text_result(r) == Err::<
                Seq<char>,
                (Seq<char>, Seq<char>),
            >(wrong_args("smembers"@)),
            buffer@.len() == 1 ==> exists|now: u64|
                final(database)@ == touched(old(database)@, buffer@[0]@, now)
                && smembers_reply(final(database)@, buffer@[0]@, text_result(r)),
            final(database).time >= old(database).time,
            buffer@.len() == 1 ==> (final(database)@ == touched(old(database)@, buffer@[0]@, final(database).time)
                && smembers_reply(final(database)@, buffer@[0]@, text_result(r))),
    {
        let now = database.tick();
        self.run_at(buffer, database, now)
    }
}

fn check_error_cases(buffer: &Vec<String>) -> (r: Result<(), ErrorStruct>)
    ensures
        match r {
            Ok(()) => buffer@.len() == 1,
            Err(e) => buffer@.len() != 1 && (e.prefix@, e.message@) == wrong_args("smembers"@),
        },
{
    check_empty(buffer, "smembers")?;
    if buffer.len() != 1 {
        return Err(wrong_args_error("smembers"));
    }
    Ok(())
}

} // verus!
