//! MSET: sets several keys to strings.
use vstd::prelude::*;

use crate::commands::{check_empty, texts_of, wrong_args};
use crate::database::{Database, KeySpace, TypeSaved, TypeSavedView};
use crate::messages::redis_messages;
use crate::native_types::redis_type::{simple_string_encoding, text_result};
use crate::native_types::{ErrorStruct, RSimpleString, RedisType};
use crate::text::string_of;

verus! {

pub struct Mset;

/// The key space after setting each key of `args` to the string after it.
pub open spec fn pairs_inserted(m: KeySpace, args: Seq<Seq<char>>) -> KeySpace
    decreases args.len(),
{
    if args.len() < 2 {
        m
    } else {
        pairs_inserted(m.insert(args[0], (None, TypeSavedView::String(args[1]))), args.skip(2))
    }
}

impl Mset {
    /// Sets each key to the string after it, in order, with no expiration.
    pub fn run(&self, buffer: Vec<String>, database: &mut Database) -> (r: Result<String, ErrorStruct>)
        requires
            old(database).wf(),
        ensures
            final(database).wf(),
            (buffer@.len() == 0 || buffer@.len() % 2 == 1) ==> final(database)@ == old(database)@
                && text_result(r) == Err::<Seq<char>, (Seq<char>, Seq<char>)>(wrong_args("mset"@)),
            (buffer@.len() > 0 && buffer@.len() % 2 == 0) ==> final(database)@ == pairs_inserted(
                old(database)@,
                texts_of(buffer@),
            ) && text_result(r) == Ok::<Seq<char>, (Seq<char>, Seq<char>)>(
                simple_string_encoding("OK"@),
            ),
    {
        check_error_cases(&buffer)?;
        let ghost args = texts_of(buffer@);
        let mut i: usize = 0;
        assert(args.skip(0) =~= args);
        while i + 1 < buffer.len()
            invariant
                i <= buffer.len(),
                i % 2 == 0,
                buffer@.len() % 2 == 0,
                args == texts_of(buffer@),
                database.wf(),
                pairs_inserted(old(database)@, args) == pairs_inserted(database@, args.skip(i as int)),
            decreases buffer.len() - i,
        {
            assert(args.skip(i as int).skip(2) =~= args.skip(i + 2));
            assert(args.skip(i as int)[0] == args[i as int]);
            assert(args.skip(i as int)[1] == args[i + 1]);
            database.insert(string_of(buffer[i].as_str()), TypeSaved::String(string_of(buffer[i + 1].as_str())));
            i = i + 2;
        }
        assert(args.skip(i as int).len() == 0);
        Ok(RSimpleString::encode(redis_messages::ok()))
    }
}

fn check_error_cases(buffer: &Vec<String>) -> (r: Result<(), ErrorStruct>)
    ensures
        match r {
            Ok(()) => buffer@.len() > 0 && buffer@.len() % 2 == 0,
            Err(e) => (buffer@.len() == 0 || buffer@.len() % 2 == 1) && (e.prefix@, e.message@)
                == wrong_args("mset"@),
        },
{
    check_empty(buffer, "mset")?;
    if is_odd(buffer) {
        return Err(ErrorStruct::from(redis_messages::arguments_invalid_to("mset")));
    }
    Ok(())
}

fn is_odd(buffer: &Vec<String>) -> (b: bool)
    ensures
        b == (buffer@.len() % 2 == 1),
{
    buffer.len() % 2 == 1
}

} // verus!
