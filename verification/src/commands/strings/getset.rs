//! GETSET: sets the string at a key and returns the one it held.
use vstd::prelude::*;

use super::get::encoded_nil;
use crate::commands::{no_more_values, pop_value, replace_value, wrong_args};
use crate::database::{touched, Database, KeySpace, TypeSaved, TypeSavedView};
use crate::native_types::redis_type::{bulk_encoding, nil_text, text_result};
use crate::native_types::{ErrorStruct, RedisType};
use crate::text::string_of;
use crate::time_expiration::expire_info::now_nanos;

verus! {

pub struct Getset;

/// What GETSET of `value` at `key` does, on the key space `t` left by a
/// touch.
pub open spec fn getset_outcome(
    t: KeySpace,
    key: Seq<char>,
    value: Seq<char>,
    after: KeySpace,
    reply: Result<Seq<char>, (Seq<char>, Seq<char>)>,
) -> bool {
    if t.contains_key(key) {
        match t[key].1 {
            TypeSavedView::String(s) => after == t.insert(key, (None, TypeSavedView::String(value)))
                && reply == Ok::<Seq<char>, (Seq<char>, Seq<char>)>(bulk_encoding(s)),
            _ => after == t && reply == Err::<Seq<char>, (Seq<char>, Seq<char>)>(
                ("ERR"@, "key provided does not match an string"@),
            ),
        }
    } else {
        after == t.insert(key, (None, TypeSavedView::String(value))) && reply == Ok::<
            Seq<char>,
            (Seq<char>, Seq<char>),
        >(bulk_encoding(nil_text()))
    }
}

impl Getset {
    /// Sets the key, the first argument, to the string, the second, and
    /// returns the string it held. The key is touched at the time `now`: an
    /// expired key counts as missing.
    pub fn run_at(&self, buffer: Vec<String>, database: &mut Database, now: u64) -> (r: Result<String, ErrorStruct>)
        requires
            old(database).wf(),
        ensures
            final(database).wf(),
            final(database).time == old(database).time,
            buffer@.len() < 2 ==> final(database)@ == old(database)@ && text_result(r) == Err::<
                Seq<char>,
                (Seq<char>, Seq<char>),
            >(wrong_args("append"@)),
            buffer@.len() > 2 ==> final(database)@ == old(database)@ && text_result(r) == Err::<
                Seq<char>,
                (Seq<char>, Seq<char>),
            >(wrong_args("getset"@)),
            buffer@.len() == 2 ==> getset_outcome(
                touched(old(database)@, buffer@[0]@, now),
                buffer@[0]@,
                buffer@[1]@,
                final(database)@,
                text_result(r),
            ),
    {
        let mut buffer = buffer;
        let new_value = pop_value(&mut buffer)?;
        let key = pop_value(&mut buffer)?;
        no_more_values(&buffer, "getset")?;
        let ghost t = touched(old(database)@, key@, now);
        let kind: u8 = match database.get_at(key.as_str(), now) {
            Some(TypeSaved::String(_)) => 1,
            Some(_) => 2,
            None => 0,
        };
        if kind == 1 {
            let r = replace_value(database, key, new_value);
            assert(getset_outcome(t, key@, new_value@, database@, text_result(r)));
            r
        } else if kind == 2 {
            let r = Err(ErrorStruct::new(string_of("ERR"), string_of("key provided does not match an string")));
            assert(getset_outcome(t, key@, new_value@, database@, text_result(r)));
            r
        } else {
            let ghost value_view = new_value@;
            database.insert(key, TypeSaved::String(new_value));
            let r = Ok(encoded_nil());
            assert(getset_outcome(t, key@, value_view, database@, text_result(r)));
            r
        }
    }

    /// Sets the key, the first argument, to the string, the second, and
    /// returns the string it held; see `run_at`. The key is touched now.
    pub fn run(&self, buffer: Vec<String>, database: &mut Database) -> (r: Result<String, ErrorStruct>)
        requires
            old(database).wf(),
        ensures
            final(database).wf(),
            buffer@.len() < 2 ==> final(database)@ == old(database)@ && text_result(r) == Err::<
                Seq<char>,
                (Seq<char>, Seq<char>),
            >(wrong_args("append"@)),
            buffer@.len() > 2 ==> final(database)@ == old(database)@ && text_result(r) == Err::<
                Seq<char>,
                (Seq<char>, Seq<char>),
            >(wrong_args("getset"@)),
            buffer@.len() == 2 ==> exists|now: u64|
                getset_outcome(
                    touched(old(database)@, buffer@[0]@, now),
                    buffer@[0]@,
                    buffer@[1]@,
                    final(database)@,
                    text_result(r),
                ),
            final(database).time >= old(database).time,
            buffer@.len() == 2 ==> (getset_outcome(
                    touched(old(database)@, buffer@[0]@, final(database).time),
                    buffer@[0]@,
                    buffer@[1]@,
                    final(database)@,
                    text_result(r),
                )),
    {
        let now = database.tick();
        self.run_at(buffer, database, now)
    }
}

} // verus!
