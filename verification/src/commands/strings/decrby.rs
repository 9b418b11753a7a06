//! DECRBY: subtracts from the number stored at a key.
use vstd::prelude::*;

use super::{execute_value_modification, execute_value_modification_at, modification_fits, modification_outcome, Modification};
use crate::database::{touched, Database};
use crate::native_types::redis_type::text_result;
use crate::native_types::ErrorStruct;
use crate::commands::not_integer_error;
use crate::text::parse_isize_spec;

verus! {

pub struct Decrby;

pub fn decr(minuend: isize, subtrahend: isize) -> (r: isize)
    requires
        isize::MIN <= minuend - subtrahend <= isize::MAX,
    ensures
        r == minuend - subtrahend,
{
    minuend - subtrahend
}

impl Decrby {
    /// Decrements the number stored at key by decrement. If the key does not
    /// exist, it is set to 0 before performing the operation. An error is
    /// returned if the key contains a value of the wrong type or contains a
    /// string that can not be represented as integer.
    /// The key is touched at the time `now`: an expired key counts as
    /// missing.
    pub fn run_at(&self, buffer: Vec<String>, database: &mut Database, now: u64) -> (r: Result<String, ErrorStruct>)
        requires
            old(database).wf(),
            buffer@.len() >= 2,
            parse_isize_spec(buffer@.last()@) matches Some(amount) ==> modification_fits(
                old(database)@,
                buffer@[buffer@.len() - 2]@,
                amount,
                Modification::Decrement,
            ),
        ensures
            final(database).wf(),
            final(database).time == old(database).time,
            ({
                let key = buffer@[buffer@.len() - 2]@;
                match parse_isize_spec(buffer@.last()@) {
                    None => final(database)@ == old(database)@ && text_result(r) == Err::<
                        Seq<char>,
                        (Seq<char>, Seq<char>),
                    >(not_integer_error()),
                    Some(amount) => modification_outcome(
                            touched(old(database)@, key, now),
                            key,
                            amount,
                            Modification::Decrement,
                            final(database)@,
                            text_result(r),
                        ),
                }
            }),
    {
        execute_value_modification_at(database, buffer, Modification::Decrement, now)
    }

    /// Decrements the number stored at key by decrement. If the key does not
    /// exist, it is set to 0 before performing the operation. An error is
    /// returned if the key contains a value of the wrong type or contains a
    /// string that can not be represented as integer.
    /// The key is touched now; see `run_at`.
    pub fn run(&self, buffer: Vec<String>, database: &mut Database) -> (r: Result<String, ErrorStruct>)
        requires
            old(database).wf(),
            buffer@.len() >= 2,
            parse_isize_spec(buffer@.last()@) matches Some(amount) ==> modification_fits(
                old(database)@,
                buffer@[buffer@.len() - 2]@,
                amount,
                Modification::Decrement,
            ),
        ensures
            final(database).wf(),
            final(database).time >= old(database).time,
            ({
                let key = buffer@[buffer@.len() - 2]@;
                match parse_isize_spec(buffer@.last()@) {
                    None => final(database)@ == old(database)@,
                    Some(amount) => modification_outcome(
                        touched(old(database)@, key, final(database).time),
                        key,
                        amount,
                        Modification::Decrement,
                        final(database)@,
                        text_result(r),
                    ),
                }
            }),
            ({
                let key = buffer@[buffer@.len() - 2]@;
                match parse_isize_spec(buffer@.last()@) {
                    None => final(database)@ == old(database)@ && text_result(r) == Err::<
                        Seq<char>,
                        (Seq<char>, Seq<char>),
                    >(not_integer_error()),
                    Some(amount) => exists|now: u64|
                        modification_outcome(
                            touched(old(database)@, key, now),
                            key,
                            amount,
                            Modification::Decrement,
                            final(database)@,
                            text_result(r),
                        ),
                }
            }),
    {
        execute_value_modification(database, buffer, Modification::Decrement)
    }
}

} // verus!
