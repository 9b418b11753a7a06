//! INCRBY: adds to the number stored at a key.
use vstd::prelude::*;

use super::{execute_value_modification, execute_value_modification_at, modification_fits, modification_outcome, Modification};
use crate::database::{touched, Database};
use crate::native_types::redis_type::text_result;
use crate::native_types::ErrorStruct;
use crate::commands::not_integer_error;
use crate::text::parse_isize_spec;

verus! {

pub struct Incrby;

pub fn incr(addend1: isize, addend2: isize) -> (r: isize)
    requires
        isize::MIN <= addend1 + addend2 <= isize::MAX,
    ensures
        r == addend1 + addend2,
{
    addend1 + addend2
}

impl Incrby {
    /// Increments the number stored at **key** by increment. If the **key**
    /// does not exist, it is set to 0 before performing the operation.
    /// Returns the value of **key** after the increment, as an integer reply.
    /// An error is returned if the key contains a value of the wrong type or
    /// a string that can not be represented as integer.
    /// The key is touched at the time `now`: an expired key counts as
    /// missing.
    pub fn run_at(&self, buffer: Vec<String>, database: &mut Database, now: u64) -> (r: Result<String, ErrorStruct>)
        requires
            old(database).wf(),
            buffer@.len() >= 2,
            parse_isize_spec(buffer@.last()@) matches Some(amount) ==> modification_fits(
                old(database)@,
                buffer@[buffer@.len() - 2]@,
                amount,
                Modification::Increment,
            ),
        ensures
            final(database).wf(),
            final(database).time == old(database).time,
            ({
                let key = buffer@[buffer@.len() - 2]@;
                match parse_isize_spec(buffer@.last()@) {
                    None => final(database)@ == old(database)@ && text_result(r) == Err::<
                        Seq<char>,
                        (Seq<char>, Seq<char>),
                    >(not_integer_error()),
                    Some(amount) => modification_outcome(
                            touched(old(database)@, key, now),
                            key,
                            amount,
                            Modification::Increment,
                            final(database)@,
                            text_result(r),
                        ),
                }
            }),
    {
        execute_value_modification_at(database, buffer, Modification::Increment, now)
    }

    /// Increments the number stored at **key** by increment. If the **key**
    /// does not exist, it is set to 0 before performing the operation.
    /// Returns the value of **key** after the increment, as an integer reply.
    /// An error is returned if the key contains a value of the wrong type or
    /// a string that can not be represented as integer.
    /// The key is touched now; see `run_at`.
    pub fn run(&self, buffer: Vec<String>, database: &mut Database) -> (r: Result<String, ErrorStruct>)
        requires
            old(database).wf(),
            buffer@.len() >= 2,
            parse_isize_spec(buffer@.last()@) matches Some(amount) ==> modification_fits(
                old(database)@,
                buffer@[buffer@.len() - 2]@,
                amount,
                Modification::Increment,
            ),
        ensures
            final(database).wf(),
            final(database).time >= old(database).time,
            ({
                let key = buffer@[buffer@.len() - 2]@;
                match parse_isize_spec(buffer@.last()@) {
                    None => final(database)@ == old(database)@,
                    Some(amount) => modification_outcome(
                        touched(old(database)@, key, final(database).time),
                        key,
                        amount,
                        Modification::Increment,
                        final(database)@,
                        text_result(r),
                    ),
                }
            }),
            ({
                let key = buffer@[buffer@.len() - 2]@;
                match parse_isize_spec(buffer@.last()@) {
                    None => final(database)@ == old(database)@ && text_result(r) == Err::<
                        Seq<char>,
                        (Seq<char>, Seq<char>),
                    >(not_integer_error()),
                    Some(amount) => exists|now: u64|
                        modification_outcome(
                            touched(old(database)@, key, now),
                            key,
                            amount,
                            Modification::Increment,
                            final(database)@,
                            text_result(r),
                        ),
                }
            }),
    {
        execute_value_modification(database, buffer, Modification::Increment)
    }
}

} // verus!
