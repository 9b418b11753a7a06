//! APPEND: appends to the string at a key.
use vstd::prelude::*;

use super::not_strings_error;
use crate::commands::{check_empty, no_more_values, pop_value, wrong_args};
use crate::database::{touched, Database, KeySpace, TypeSaved, TypeSavedView};
use crate::native_types::redis_type::{integer_encoding, text_result};
use crate::native_types::{ErrorStruct, RInteger, RedisType};
use crate::text::{byte_count, byte_len, push_text, string_of};
use crate::time_expiration::expire_info::now_nanos;

verus! {

pub struct Append;

/// What APPEND of `value` at `key` does, on the key space `t` left by a
/// touch: the reply is the new length in bytes.
pub open spec fn append_outcome(
    t: KeySpace,
    key: Seq<char>,
    value: Seq<char>,
    after: KeySpace,
    reply: Result<Seq<char>, (Seq<char>, Seq<char>)>,
) -> bool {
    if t.contains_key(key) {
        match t[key].1 {
            TypeSavedView::String(s) => after == t.insert(key, (t[key].0, TypeSavedView::String(s + value)))
                && reply == Ok::<Seq<char>, (Seq<char>, Seq<char>)>(
                integer_encoding((byte_count(s + value) as isize) as int),
            ),
            _ => after == t && reply == Err::<Seq<char>, (Seq<char>, Seq<char>)>(not_strings_error()),
        }
    } else {
        after == t.insert(key, (None, TypeSavedView::String(value))) && reply == Ok::<
            Seq<char>,
            (Seq<char>, Seq<char>),
        >(integer_encoding((byte_count(value) as isize) as int))
    }
}

impl Append {
    /// Appends the string, the second argument, to the string at the key,
    /// the first, or sets it when the key is missing; replies with the new
    /// length in bytes. The key is touched at the time `now`: an expired key
    /// counts as missing.
    pub fn run_at(&self, buffer: Vec<String>, database: &mut Database, now: u64) -> (r: Result<String, ErrorStruct>)
        requires
            old(database).wf(),
        ensures
            final(database).wf(),
            final(database).time == old(database).time,
            buffer@.len() != 2 ==> final(database)@ == old(database)@ && text_result(r) == Err::<
                Seq<char>,
                (Seq<char>, Seq<char>),
            >(wrong_args("append"@)),
            buffer@.len() == 2 ==> append_outcome(
                touched(old(database)@, buffer@[0]@, now),
                buffer@[0]@,
                buffer@[1]@,
                final(database)@,
                text_result(r),
            ),
    {
        let mut buffer = buffer;
        check_empty(&buffer, "append")?;
        let new_value = pop_value(&mut buffer)?;
        let key = pop_value(&mut buffer)?;
        no_more_values(&buffer, "append")?;
        let ghost t = touched(old(database)@, key@, now);
        let outcome: Option<Result<String, ErrorStruct>> = match database.get_mut_at(key.as_str(), now) {
            Some(v) => match v {
                TypeSaved::String(old_value) => {
                    let ghost before = old_value@;
                    push_text(old_value, new_value.as_str());
                    let size = byte_len(old_value);
                    assert(old_value@ == before + new_value@);
                    Some(Ok(RInteger::encode(size as isize)))
                },
                _ => {
                    assert(t.insert(key@, (t[key@].0, v@)) =~= t);
                    Some(Err(ErrorStruct::new(string_of("ERR"), string_of("key provided is not from strings"))))
                },
            },
            None => None,
        };
        assert(t.contains_key(key@) ==> outcome is Some);
        match outcome {
            Some(r) => {
                assert(append_outcome(t, key@, new_value@, database@, text_result(r)));
                r
            },
            None => {
                let size = byte_len(&new_value);
                let ghost value_view = new_value@;
                database.insert(key, TypeSaved::String(new_value));
                let r = Ok(RInteger::encode(size as isize));
                assert(append_outcome(t, key@, value_view, database@, text_result(r)));
                r
            },
        }
    }

    /// Appends the string, the second argument, to the string at the key,
    /// the first; see `run_at`. The key is touched now.
    pub fn run(&self, buffer: Vec<String>, database: &mut Database) -> (r: Result<String, ErrorStruct>)
        requires
            old(database).wf(),
        ensures
            final(database).wf(),
            buffer@.len() != 2 ==> final(database)@ == old(database)@ && text_result(r) == Err::<
                Seq<char>,
                (Seq<char>, Seq<char>),
            >(wrong_args("append"@)),
            buffer@.len() == 2 ==> exists|now: u64|
                append_outcome(
                    touched(old(database)@, buffer@[0]@, now),
                    buffer@[0]@,
                    buffer@[1]@,
                    final(database)@,
                    text_result(r),
                ),
            final(database).time >= old(database).time,
            buffer@.len() == 2 ==> (append_outcome(
                    touched(old(database)@, buffer@[0]@, final(database).time),
                    buffer@[0]@,
                    buffer@[1]@,
                    final(database)@,
                    text_result(r),
                )),
    {
        let now = database.tick();
        self.run_at(buffer, database, now)
    }
}

} // verus!
