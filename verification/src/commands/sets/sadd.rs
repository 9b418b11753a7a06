//! SADD: adds members to the set at a key.
use vstd::prelude::*;

use crate::commands::{check_empty, texts_of, wrong_args, wrong_args_error, wrongtype, wrongtype_error};
use crate::database::{touched, Database, KeySpace, TypeSaved, TypeSavedView};
use crate::native_types::redis_type::{integer_encoding, text_result};
use crate::native_types::{ErrorStruct, RInteger, RedisType};
use crate::string_map::StringSet;
use crate::time_expiration::expire_info::now_nanos;

verus! {

pub struct Sadd;

/// What SADD of `members` at `key` does, on the key space `t` left by a
/// touch: the members join the set (a new one if the key is missing), and
/// the reply is the number of them that were not in it.
pub open spec fn sadd_outcome(
    t: KeySpace,
    key: Seq<char>,
    members: Set<Seq<char>>,
    after: KeySpace,
    reply: Result<Seq<char>, (Seq<char>, Seq<char>)>,
) -> bool {
    if t.contains_key(key) {
        match t[key].1 {
            TypeSavedView::Sets(s) => after == t.insert(key, (t[key].0, TypeSavedView::Sets(s + members)))
                && reply == Ok::<Seq<char>, (Seq<char>, Seq<char>)>(
                integer_encoding((s + members).len() - s.len()),
            ),
            _ => after == t && reply == Err::<Seq<char>, (Seq<char>, Seq<char>)>(wrongtype_error()),
        }
    } else {
        after == t.insert(key, (None, TypeSavedView::Sets(members))) && reply == Ok::<
            Seq<char>,
            (Seq<char>, Seq<char>),
        >(integer_encoding(members.len() as int))
    }
}

/// Adds the arguments after the first to `set`; returns how many of them
/// were not members before.
pub fn insert_in_set(buffer: &Vec<String>, set: &mut StringSet) -> (added: usize)
    requires
        old(set).wf(),
        buffer@.len() > 0,
    ensures
        final(set).wf(),
        final(set)@ == old(set)@ + texts_of(buffer@).skip(1).to_set(),
        final(set)@.finite(),
        old(set)@.finite(),
        added == final(set)@.len() - old(set)@.len(),
        added < buffer@.len(),
{
    let ghost members = texts_of(buffer@);
    let ghost start = set@;
    let _ = set.len();
    let mut added: usize = 0;
    let mut i: usize = 1;
    while i < buffer.len()
        invariant
            1 <= i <= buffer.len(),
            members == texts_of(buffer@),
            set.wf(),
            start.finite(),
            set@.finite(),
            set@ == start + members.subrange(1, i as int).to_set(),
            added == set@.len() - start.len(),
            added < i,
        decreases buffer.len() - i,
    {
        let fresh = set.insert(buffer[i].clone());
        if fresh {
            added = added + 1;
        }
        proof {
            assert(members.subrange(1, i + 1) =~= members.subrange(1, i as int).push(members[i as int]));
            members.subrange(1, i as int).lemma_push_to_set_commute(members[i as int]);
            assert(set@ =~= start + members.subrange(1, i + 1).to_set());
        }
        i = i + 1;
    }
    assert(members.subrange(1, buffer@.len() as int) =~= members.skip(1));
    added
}

impl Sadd {
    /// Adds the members, the arguments after the first, to the set at the
    /// key, the first; a missing key gets a new set. Replies with the
    /// number of members that were not in the set. The key is touched at the
    /// time `now`: an expired key counts as missing.
    pub fn run_at(&self, buffer: Vec<String>, database: &mut Database, now: u64) -> (r: Result<String, ErrorStruct>)
        requires
            old(database).wf(),
            buffer@.len() <= isize::MAX,
        ensures
            final(database).wf(),
            final(database).time == old(database).time,
            buffer@.len() < 2 ==> final(database)@ == old(database)@ && text_result(r) == Err::<
                Seq<char>,
                (Seq<char>, Seq<char>),
            >(wrong_args("sadd"@)),
            buffer@.len() >= 2 ==> sadd_outcome(
                touched(old(database)@, buffer@[0]@, now),
                buffer@[0]@,
                texts_of(buffer@).skip(1).to_set(),
                final(database)@,
                text_result(r),
            ),
    {
        check_error_cases(&buffer)?;
        let key = &buffer[0];
        let ghost members = texts_of(buffer@).skip(1).to_set();
        let ghost t = touched(old(database)@, key@, now);
        let outcome: Option<Result<String, ErrorStruct>> = match database.get_mut_at(key.as_str(), now) {
            Some(v) => match v {
                TypeSaved::Sets(set) => {
                    let added = insert_in_set(&buffer, set);
                    Some(Ok(RInteger::encode(added as isize)))
                },
                _ => {
                    assert(t.insert(key@, (t[key@].0, v@)) =~= t);
                    Some(Err(wrongtype()))
                },
            },
            None => None,
        };
        assert(t.contains_key(key@) ==> outcome is Some);
        match outcome {
            Some(r) => {
                assert(sadd_outcome(t, key@, members, database@, text_result(r)));
                r
            },
            None => {
                let mut set = StringSet::new();
                let added = insert_in_set(&buffer, &mut set);
                proof {
                    assert(set@ =~= members);
                }
                database.insert(key.clone(), TypeSaved::Sets(set));
                let r = Ok(RInteger::encode(added as isize));
                assert(sadd_outcome(t, key@, members, database@, text_result(r)));
                r
            },
        }
    }

    /// Adds the members, the arguments after the first, to the set at the
    /// key, the first; see `run_at`. The key is touched now.
    pub fn run(&self, buffer: Vec<String>, database: &mut Database) -> (r: Result<String, ErrorStruct>)
        requires
            old(database).wf(),
            buffer@.len() <= isize::MAX,
        ensures
            final(database).wf(),
            buffer@.len() < 2 ==> final(database)@ == old(database)@ && text_result(r) == Err::<
                Seq<char>,
                (Seq<char>, Seq<char>),
            >(wrong_args("sadd"@)),
            buffer@.len() >= 2 ==> exists|now: u64|
                sadd_outcome(
                    touched(old(database)@, buffer@[0]@, now),
                    buffer@[0]@,
                    texts_of(buffer@).skip(1).to_set(),
                    final(database)@,
                    text_result(r),
                ),
            final(database).time >= old(database).time,
            buffer@.len() >= 2 ==> (sadd_outcome(
                    touched(old(database)@, buffer@[0]@, final(database).time),
                    buffer@[0]@,
                    texts_of(buffer@).skip(1).to_set(),
                    final(database)@,
                    text_result(r),
                )),
    {
        let now = database.tick();
        self.run_at(buffer, database, now)
    }
}

fn check_error_cases(buffer: &Vec<String>) -> (r: Result<(), ErrorStruct>)
    ensures
        match r {
            Ok(()) => buffer@.len() >= 2,
            Err(e) => buffer@.len() < 2 && (e.prefix@, e.message@) == wrong_args("sadd"@),
        },
{
    check_empty(buffer, "sadd")?;
    if buffer.len() < 2 {
        return Err(wrong_args_error("sadd"));
    }
    Ok(())
}

} // verus!
