//! MGET: the strings stored at several keys.
use vstd::prelude::*;

use crate::commands::{check_empty, texts_of, wrong_args, wrong_args_error};
use crate::database::{touched, Database, KeySpace, TypeSaved, TypeSavedView};
use crate::messages::redis_messages;
use crate::native_types::redis_type::{array_encoding, nil_text, strings_view, text_result};
use crate::native_types::{ErrorStruct, RArray, RedisType};
use crate::time_expiration::expire_info::{expired, now_nanos};

verus! {

pub struct Mget;

/// The key space after a touch of each of `keys`, in order, at the time `now`.
pub open spec fn touched_all(m: KeySpace, keys: Seq<Seq<char>>, now: u64) -> KeySpace
    decreases keys.len(),
{
    if keys.len() == 0 {
        m
    } else {
        touched(touched_all(m, keys.drop_last(), now), keys.last(), now)
    }
}

/// What MGET gives for `key` on the key space `m` at the time `now`: the
/// string it holds if it has not expired, `(nil)` otherwise.
pub open spec fn mget_value(m: KeySpace, key: Seq<char>, now: u64) -> Seq<char> {
    if m.contains_key(key) && !expired(m[key].0, now) {
        match m[key].1 {
            TypeSavedView::String(s) => s,
            _ => nil_text(),
        }
    } else {
        nil_text()
    }
}

/// The reply of MGET for `keys` on the key space `m` at the time `now`.
pub open spec fn mget_reply(m: KeySpace, keys: Seq<Seq<char>>, now: u64) -> Seq<char> {
    array_encoding(Seq::new(keys.len(), |i: int| mget_value(m, keys[i], now)))
}

/// Touches at one time keep every key that has not expired, and keep what
/// is left as it was.
pub proof fn lemma_touched_all_keeps(m: KeySpace, keys: Seq<Seq<char>>, now: u64, k: Seq<char>)
    ensures
        m.contains_key(k) && !expired(m[k].0, now) ==> touched_all(m, keys, now).contains_key(k)
            && touched_all(m, keys, now)[k] == m[k],
        touched_all(m, keys, now).contains_key(k) ==> m.contains_key(k) && touched_all(
            m,
            keys,
            now,
        )[k] == m[k],
    decreases keys.len(),
{
    if keys.len() > 0 {
        lemma_touched_all_keeps(m, keys.drop_last(), now, k);
    }
}

impl Mget {
    /// The strings at the keys, the arguments, in their order, as an array
    /// of bulk strings; `(nil)` for a key that is missing, has expired or
    /// holds no string. Each key is touched at the time `now`.
    pub fn run_at(&self, buffer: Vec<String>, database: &mut Database, now: u64) -> (r: Result<String, ErrorStruct>)
        requires
            old(database).wf(),
        ensures
            final(database).wf(),
            final(database).time == old(database).time,
            buffer@.len() < 2 ==> final(database)@ == old(database)@ && text_result(r) == Err::<
                Seq<char>,
                (Seq<char>, Seq<char>),
            >(wrong_args("mget"@)),
            buffer@.len() >= 2 ==> final(database)@ == touched_all(old(database)@, texts_of(buffer@), now)
                && text_result(r) == Ok::<Seq<char>, (Seq<char>, Seq<char>)>(
                mget_reply(old(database)@, texts_of(buffer@), now),
            ),
    {
        check_error_cases(&buffer)?;
        let ghost keys = texts_of(buffer@);
        let ghost start = database@;
        let mut values: Vec<String> = Vec::new();
        let mut i: usize = 0;
        while i < buffer.len()
            invariant
                i <= buffer.len(),
                keys == texts_of(buffer@),
                database.wf(),
                database.time == old(database).time,
                database@ == touched_all(start, keys.take(i as int), now),
                values@.len() == i,
                forall|j: int| 0 <= j < i ==> #[trigger] values@[j]@ == mget_value(start, keys[j], now),
            decreases buffer.len() - i,
        {
            let value = match database.get_at(buffer[i].as_str(), now) {
                Some(TypeSaved::String(s)) => s.clone(),
                _ => redis_messages::nil(),
            };
            proof {
                reveal_strlit("(nil)");
                assert(keys.take(i + 1).drop_last() =~= keys.take(i as int));
                assert(keys.take(i + 1).last() == keys[i as int]);
                lemma_touched_all_keeps(start, keys.take(i as int), now, keys[i as int]);
                assert(value@ == mget_value(start, keys[i as int], now));
            }
            values.push(value);
            i = i + 1;
        }
        proof {
            assert(keys.take(buffer@.len() as int) =~= keys);
            assert(strings_view(values@) =~= Seq::new(keys.len(), |j: int| mget_value(start, keys[j], now)));
        }
        Ok(RArray::encode(values))
    }

    /// The strings at the keys, the arguments, in their order; see
    /// `run_at`. Each key is touched now.
    pub fn run(&self, buffer: Vec<String>, database: &mut Database) -> (r: Result<String, ErrorStruct>)
        requires
            old(database).wf(),
        ensures
            final(database).wf(),
            buffer@.len() < 2 ==> final(database)@ == old(database)@ && text_result(r) == Err::<
                Seq<char>,
                (Seq<char>, Seq<char>),
            >(wrong_args("mget"@)),
            buffer@.len() >= 2 ==> exists|now: u64|
                final(database)@ == touched_all(old(database)@, texts_of(buffer@), now) && text_result(r)
                    == Ok::<Seq<char>, (Seq<char>, Seq<char>)>(
                    mget_reply(old(database)@, texts_of(buffer@), now),
                ),
            final(database).time >= old(database).time,
            buffer@.len() >= 2 ==> (final(database)@ == touched_all(old(database)@, texts_of(buffer@), final(database).time) && text_result(r)
                    == Ok::<Seq<char>, (Seq<char>, Seq<char>)>(
                    mget_reply(old(database)@, texts_of(buffer@), final(database).time),
                )),
    {
        let now = database.tick();
        self.run_at(buffer, database, now)
    }
}

fn check_error_cases(buffer: &Vec<String>) -> (r: Result<(), ErrorStruct>)
    ensures
        match r {
            Ok(()) => buffer@.len() >= 2,
            Err(e) => buffer@.len() < 2 && (e.prefix@, e.message@) == wrong_args("mget"@),
        },
{
    check_empty(buffer, "mget")?;
    if buffer.len() == 1 {
        return Err(wrong_args_error("mget"));
    }
    Ok(())
}

} // verus!
