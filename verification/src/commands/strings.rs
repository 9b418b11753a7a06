//! The commands on string values.
use vstd::prelude::*;

use crate::commands::{get_as_integer, not_integer_error};
use crate::database::{touched, Database, KeySpace, TypeSaved, TypeSavedView};
use crate::native_types::redis_type::{error_view, integer_encoding, text_result};
use crate::native_types::{ErrorStruct, RInteger, RedisType};
use crate::text::{int_to_decimal, isize_to_string, parse_isize_spec, string_of};
use crate::time_expiration::expire_info::now_nanos;

pub mod append;
pub mod decrby;
pub mod get;
pub mod getdel;
pub mod getset;
pub mod incrby;
pub mod mget;
pub mod mset;
pub mod set;
pub mod strlen;

verus! {

/// How a number stored at a key is changed.
#[derive(Clone, Copy)]
pub enum Modification {
    Increment,
    Decrement,
}

pub open spec fn apply(op: Modification, current: int, amount: int) -> int {
    match op {
        Modification::Increment => current + amount,
        Modification::Decrement => current - amount,
    }
}

pub open spec fn fits_isize(v: int) -> bool {
    isize::MIN <= v <= isize::MAX
}

/// The error of a key that holds another kind of value than a string.
pub open spec fn not_strings_error() -> (Seq<char>, Seq<char>) {
    ("ERR"@, "key provided is not from strings"@)
}

/// What reading the number stored at `key` does, on the key space `t` left
/// by a touch: the number, with 0 stored first when the key is missing.
pub open spec fn key_check_outcome(
    t: KeySpace,
    key: Seq<char>,
    after: KeySpace,
    r: Result<int, (Seq<char>, Seq<char>)>,
) -> bool {
    if t.contains_key(key) {
        &&& after == t
        &&& match t[key].1 {
            TypeSavedView::String(s) => match parse_isize_spec(s) {
                Some(c) => r == Ok::<int, (Seq<char>, Seq<char>)>(c),
                None => r == Err::<int, (Seq<char>, Seq<char>)>(not_integer_error()),
            },
            _ => r == Err::<int, (Seq<char>, Seq<char>)>(not_strings_error()),
        }
    } else {
        &&& after == t.insert(key, (None, TypeSavedView::String(seq!['0'])))
        &&& r == Ok::<int, (Seq<char>, Seq<char>)>(0)
    }
}

pub open spec fn number_result(r: Result<isize, ErrorStruct>) -> Result<int, (Seq<char>, Seq<char>)> {
    match r {
        Ok(n) => Ok(n as int),
        Err(e) => Err(error_view(e)),
    }
}

/// The number stored at `key`; a missing key is set to 0 first. The key
/// is touched at the time `now`: an expired key counts as missing.
pub fn string_key_check_at(database: &mut Database, key: String, now: u64) -> (r: Result<isize, ErrorStruct>)
    requires
        old(database).wf(),
    ensures
        final(database).wf(),
        final(database).time == old(database).time,
        key_check_outcome(touched(old(database)@, key@, now), key@, final(database)@, number_result(r)),
{
    let ghost t = touched(old(database)@, key@, now);
    let found = match database.get_at(key.as_str(), now) {
        Some(TypeSaved::String(old_value)) => Some(get_as_integer(old_value)),
        Some(_) => Some(Err(ErrorStruct::new(string_of("ERR"), string_of("key provided is not from strings")))),
        None => None,
    };
    match found {
        Some(r) => {
            assert(key_check_outcome(t, key@, database@, number_result(r)));
            r
        },
        None => {
            let zero = string_of("0");
            proof {
                reveal_strlit("0");
            }
            assert(zero@ =~= seq!['0']);
            database.insert(key, TypeSaved::String(zero));
            assert(key_check_outcome(t, key@, database@, Ok::<int, (Seq<char>, Seq<char>)>(0)));
            Ok(0)
        },
    }
}

/// The number stored at `key`; see `string_key_check_at`. The key is
/// touched now.
pub fn string_key_check(database: &mut Database, key: String) -> (r: Result<isize, ErrorStruct>)
    requires
        old(database).wf(),
    ensures
        final(database).wf(),
        final(database).time >= old(database).time,
        key_check_outcome(
            touched(old(database)@, key@, final(database).time),
            key@,
            final(database)@,
            number_result(r),
        ),
        exists|now: u64|
            key_check_outcome(touched(old(database)@, key@, now), key@, final(database)@, number_result(r)),
{
    let now = database.tick();
    string_key_check_at(database, key, now)
}

/// What changing the number at `key` by `amount` does, on the key space `t`
/// left by a touch.
pub open spec fn modification_outcome(
    t: KeySpace,
    key: Seq<char>,
    amount: int,
    op: Modification,
    after: KeySpace,
    reply: Result<Seq<char>, (Seq<char>, Seq<char>)>,
) -> bool {
    let current: Option<int> = if t.contains_key(key) {
        match t[key].1 {
            TypeSavedView::String(s) => parse_isize_spec(s),
            _ => None,
        }
    } else {
        Some(0)
    };
    match current {
        Some(c) => {
            &&& after == t.insert(
                key,
                (None, TypeSavedView::String(int_to_decimal(apply(op, c, amount)))),
            )
            &&& reply == Ok::<Seq<char>, (Seq<char>, Seq<char>)>(
                integer_encoding(apply(op, c, amount)),
            )
        },
        None => {
            &&& after == t
            &&& reply == Err::<Seq<char>, (Seq<char>, Seq<char>)>(
                if t[key].1 is String {
                    not_integer_error()
                } else {
                    not_strings_error()
                },
            )
        },
    }
}

/// The change stays in the range of `isize`, whatever the touch leaves.
pub open spec fn modification_fits(m: KeySpace, key: Seq<char>, amount: int, op: Modification) -> bool {
    &&& (m.contains_key(key) && m[key].1 is String && parse_isize_spec(m[key].1->String_0) is Some)
        ==> fits_isize(apply(op, parse_isize_spec(m[key].1->String_0)->Some_0, amount))
    &&& (!m.contains_key(key) || m[key].0 is Some) ==> fits_isize(apply(op, 0, amount))
}

/// Changes the number stored at the key by the amount, the last two
/// arguments; a missing key counts as 0. The new number is stored with no
/// expiration and returned as an integer reply. The key is touched at the
/// time `now`: an expired key counts as missing.
pub fn execute_value_modification_at(
    database: &mut Database,
    buffer_vec: Vec<String>,
    op: Modification,
    now: u64,
) -> (r: Result<String, ErrorStruct>)
    requires
        old(database).wf(),
        buffer_vec@.len() >= 2,
        parse_isize_spec(buffer_vec@.last()@) matches Some(amount) ==> modification_fits(
            old(database)@,
            buffer_vec@[buffer_vec@.len() - 2]@,
            amount,
            op,
        ),
    ensures
        final(database).wf(),
        final(database).time == old(database).time,
        ({
            let key = buffer_vec@[buffer_vec@.len() - 2]@;
            match parse_isize_spec(buffer_vec@.last()@) {
                None => final(database)@ == old(database)@ && text_result(r) == Err::<
                    Seq<char>,
                    (Seq<char>, Seq<char>),
                >(not_integer_error()),
                Some(amount) => modification_outcome(
                        touched(old(database)@, key, now),
                        key,
                        amount,
                        op,
                        final(database)@,
                        text_result(r),
                    ),
            }
        }),
{
    let mut buffer_vec = buffer_vec;
    let decr = buffer_vec.pop().unwrap();
    let key = buffer_vec.pop().unwrap();
    let decr_int = get_as_integer(&decr)?;
    let ghost start = database@;
    let current_key_value = string_key_check_at(database, key.clone(), now);
    let ghost t = touched(start, key@, now);
    let current_key_value = match current_key_value {
        Ok(v) => v,
        Err(e) => {
            assert(modification_outcome(t, key@, decr_int as int, op, database@, text_result(Err(e))));
            return Err(e);
        },
    };
    assert(fits_isize(apply(op, current_key_value as int, decr_int as int)));
    let new_value = match op {
        Modification::Increment => incrby::incr(current_key_value, decr_int),
        Modification::Decrement => decrby::decr(current_key_value, decr_int),
    };
    let ghost mid = database@;
    let new_text = isize_to_string(new_value);
    let ghost entry = (None::<u64>, TypeSavedView::String(new_text@));
    database.insert(key, TypeSaved::String(new_text));
    assert(mid.insert(key@, entry) =~= t.insert(key@, entry));
    let reply = RInteger::encode(new_value);
    assert(modification_outcome(t, key@, decr_int as int, op, database@, text_result(Ok(reply))));
    Ok(reply)
}

/// Changes the number stored at the key by the amount, the last two
/// arguments; a missing key counts as 0. The new number is stored with no
/// expiration and returned as an integer reply; see
/// `execute_value_modification_at`. The key is touched now.
pub fn execute_value_modification(database: &mut Database, buffer_vec: Vec<String>, op: Modification) -> (r: Result<String, ErrorStruct>)
    requires
        old(database).wf(),
        buffer_vec@.len() >= 2,
        parse_isize_spec(buffer_vec@.last()@) matches Some(amount) ==> modification_fits(
            old(database)@,
            buffer_vec@[buffer_vec@.len() - 2]@,
            amount,
            op,
        ),
    ensures
        final(database).wf(),
        final(database).time >= old(database).time,
        ({
            let key = buffer_vec@[buffer_vec@.len() - 2]@;
            match parse_isize_spec(buffer_vec@.last()@) {
                None => final(database)@ == old(database)@,
                Some(amount) => modification_outcome(
                    touched(old(database)@, key, final(database).time),
                    key,
                    amount,
                    op,
                    final(database)@,
                    text_result(r),
                ),
            }
        }),
        ({
            let key = buffer_vec@[buffer_vec@.len() - 2]@;
            match parse_isize_spec(buffer_vec@.last()@) {
                None => final(database)@ == old(database)@ && text_result(r) == Err::<
                    Seq<char>,
                    (Seq<char>, Seq<char>),
                >(not_integer_error()),
                Some(amount) => exists|now: u64|
                    modification_outcome(
                        touched(old(database)@, key, now),
                        key,
                        amount,
                        op,
                        final(database)@,
                        text_result(r),
                    ),
            }
        }),
{
    let now = database.tick();
    execute_value_modification_at(database, buffer_vec, op, now)
}

} // verus!
