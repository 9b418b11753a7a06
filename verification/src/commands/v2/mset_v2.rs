//! MSET on the key space without expiration, read from a request that
//! starts with the command's name.
use vstd::prelude::*;

use super::database_mock_v2::{DatabaseMock2, TypeSaved};
use crate::commands::wrong_args;
use crate::database::TypeSavedView;
use crate::messages::redis_messages::{self, unknown_command_text};
use crate::native_types::redis_type::{simple_string_encoding, text_result};
use crate::native_types::{ErrorStruct, RSimpleString, RedisType};
use crate::text::{same_text, string_of};

verus! {

pub struct Mset2;

/// The key space after setting each key of `args` to the string after it.
pub open spec fn pairs_set(m: Map<Seq<char>, TypeSavedView>, args: Seq<Seq<char>>) -> Map<Seq<char>, TypeSavedView>
    decreases args.len(),
{
    if args.len() < 2 {
        m
    } else {
        pairs_set(m.insert(args[0], TypeSavedView::String(args[1])), args.skip(2))
    }
}

/// The texts of a request's words.
pub open spec fn words(v: Seq<&str>) -> Seq<Seq<char>> {
    v.map_values(|s: &str| s@)
}

/// The error of an empty request.
pub open spec fn empty_mset_error() -> (Seq<char>, Seq<char>) {
    ("ERR"@, "'mset command' does not accept empty values"@)
}

impl Mset2 {
    /// Sets each key to the string after it, the words after the first, in
    /// order. The request must name `mset` and hold keys and values in
    /// pairs.
    pub fn run(buffer_vec: Vec<&str>, database: &mut DatabaseMock2) -> (r: Result<String, ErrorStruct>)
        requires
            old(database).wf(),
        ensures
            final(database).wf(),
            buffer_vec@.len() == 0 ==> final(database)@ == old(database)@ && text_result(r) == Err::<
                Seq<char>,
                (Seq<char>, Seq<char>),
            >(empty_mset_error()),
            (buffer_vec@.len() > 0 && (buffer_vec@.len() == 1 || buffer_vec@.len() % 2 == 0))
                ==> final(database)@ == old(database)@ && text_result(r) == Err::<
                Seq<char>,
                (Seq<char>, Seq<char>),
            >(wrong_args("mset"@)),
            (buffer_vec@.len() > 1 && buffer_vec@.len() % 2 == 1 && buffer_vec@[0]@ != "mset"@)
                ==> final(database)@ == old(database)@ && text_result(r) == Err::<
                Seq<char>,
                (Seq<char>, Seq<char>),
            >(("ERR"@, unknown_command_text(buffer_vec@[0]@, words(buffer_vec@).skip(1)))),
            (buffer_vec@.len() > 1 && buffer_vec@.len() % 2 == 1 && buffer_vec@[0]@ == "mset"@)
                ==> final(database)@ == pairs_set(old(database)@, words(buffer_vec@).skip(1))
                && text_result(r) == Ok::<Seq<char>, (Seq<char>, Seq<char>)>(
                simple_string_encoding("OK"@),
            ),
    {
        let ghost request = buffer_vec@;
        let mut buffer_vec = buffer_vec;
        check_error_cases(&mut buffer_vec)?;
        let ghost args = words(buffer_vec@);
        assert(args =~= words(request).skip(1));
        let mut i: usize = 0;
        assert(args.skip(0) =~= args);
        while i + 1 < buffer_vec.len()
            invariant
                i <= buffer_vec.len(),
                i % 2 == 0,
                buffer_vec@.len() % 2 == 0,
                args == words(buffer_vec@),
                database.wf(),
                pairs_set(old(database)@, args) == pairs_set(database@, args.skip(i as int)),
            decreases buffer_vec.len() - i,
        {
            assert(args.skip(i as int).skip(2) =~= args.skip(i + 2));
            assert(args.skip(i as int)[0] == args[i as int]);
            assert(args.skip(i as int)[1] == args[i + 1]);
            database.insert(string_of(buffer_vec[i]), TypeSaved::String(string_of(buffer_vec[i + 1])));
            i = i + 2;
        }
        assert(args.skip(i as int).len() == 0);
        Ok(RSimpleString::encode(redis_messages::ok()))
    }
}

/// Takes the command's name off the request and checks what is left.
fn check_error_cases(buffer_vec: &mut Vec<&str>) -> (r: Result<(), ErrorStruct>)
    ensures
        match r {
            Ok(()) => old(buffer_vec)@.len() > 1 && old(buffer_vec)@.len() % 2 == 1 && old(
                buffer_vec,
            )@[0]@ == "mset"@ && final(buffer_vec)@ == old(buffer_vec)@.skip(1),
            Err(e) => if old(buffer_vec)@.len() == 0 {
                (e.prefix@, e.message@) == empty_mset_error()
            } else if old(buffer_vec)@.len() == 1 || old(buffer_vec)@.len() % 2 == 0 {
                (e.prefix@, e.message@) == wrong_args("mset"@)
            } else {
                old(buffer_vec)@[0]@ != "mset"@ && (e.prefix@, e.message@) == (
                    "ERR"@,
                    unknown_command_text(old(buffer_vec)@[0]@, words(old(buffer_vec)@).skip(1)),
                )
            },
        },
{
    if buffer_vec.len() == 0 {
        let e = ErrorStruct::from(redis_messages::not_empty_values_for("mset command"));
        proof {
            reveal_strlit("mset command");
            reveal_strlit("'");
            reveal_strlit("' does not accept empty values");
            reveal_strlit("'mset command' does not accept empty values");
            assert(e.message@ =~= "'mset command' does not accept empty values"@);
        }
        return Err(e);
    }
    let command = buffer_vec.remove(0);
    assert(buffer_vec@ =~= old(buffer_vec)@.skip(1));
    if buffer_vec.len() == 0 || buffer_vec.len() % 2 == 1 {
        return Err(ErrorStruct::from(redis_messages::wrong_number_args_for("mset")));
    }
    if !same_text(command, "mset") {
        let mut rest: Vec<String> = Vec::new();
        let mut i: usize = 0;
        while i < buffer_vec.len()
            invariant
                i <= buffer_vec.len(),
                rest@.len() == i,
                forall|j: int| 0 <= j < i ==> #[trigger] rest@[j]@ == buffer_vec@[j]@,
            decreases buffer_vec.len() - i,
        {
            rest.push(string_of(buffer_vec[i]));
            i = i + 1;
        }
        let e = redis_messages::command_not_found(string_of(command), rest);
        assert(rest@.map_values(|s: String| s@) =~= words(old(buffer_vec)@).skip(1));
        return Err(e);
    }
    Ok(())
}

} // verus!
