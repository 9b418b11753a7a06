//! SET on a key space of strings, read from a line of text.
use vstd::prelude::*;

use crate::native_types::{NativeTypes, NativeView};
use crate::string_map::StringMap;
use crate::text::{byte_count, lemma_first_index_unique, same_text, split_whitespace, string_of, words_of};

verus! {

/// A string value: never empty.
#[derive(Debug)]
pub struct RedisString {
    pub value: String,
}

/// A value of the key space.
#[derive(Debug)]
pub enum RedisTypes {
    String(RedisString),
}

/// The text a value holds.
pub open spec fn stored_text(v: RedisTypes) -> Seq<char> {
    match v {
        RedisTypes::String(s) => s.value@,
    }
}

/// The texts the keys hold.
pub open spec fn stored_texts(m: Map<Seq<char>, RedisTypes>) -> Map<Seq<char>, Seq<char>> {
    m.map_values(|v: RedisTypes| stored_text(v))
}

/// The error of an empty value.
pub open spec fn not_empty_error() -> NativeView {
    NativeView::Error("ERR"@, "RedisString not accept empty values"@)
}

/// The error of a command that is not known.
pub open spec fn not_found_error() -> NativeView {
    NativeView::Error("ERR"@, "Command not found"@)
}

/// The error of a SET without a key and a value.
pub open spec fn set_arguments_error() -> NativeView {
    NativeView::Error("ERR"@, "wrong number of arguments for 'set' command"@)
}

/// The error written as `text`, whose prefix is `ERR`.
fn err_value(text: &str) -> (r: NativeTypes)
    requires
        text@.len() > 4,
        text@.take(4) == "ERR "@,
    ensures
        r@ == NativeView::Error("ERR"@, text@.skip(4)),
{
    proof {
        reveal_strlit("ERR ");
        reveal_strlit("ERR");
        assert(text@.take(4)[3] == ' ');
        assert(text@[3] == ' ');
        assert(text@[0] != ' ' && text@[1] != ' ' && text@[2] != ' ') by {
            assert(text@[0] == text@.take(4)[0]);
            assert(text@[1] == text@.take(4)[1]);
            assert(text@[2] == text@.take(4)[2]);
        }
        lemma_first_index_unique(text@, ' ', 3);
        assert(text@.take(3) =~= "ERR"@);
    }
    NativeTypes::new_error(text)
}

impl RedisString {
    /// A string value; an empty text is refused.
    pub fn new(value: String) -> (r: Result<Self, NativeTypes>)
        ensures
            match r {
                Ok(s) => value@.len() > 0 && s.value == value,
                Err(e) => value@.len() == 0 && e@ == not_empty_error(),
            },
    {
        if value.as_str().is_empty() {
            proof {
                reveal_strlit("ERR RedisString not accept empty values");
                reveal_strlit("ERR ");
                reveal_strlit("RedisString not accept empty values");
                assert("ERR RedisString not accept empty values"@.take(4) =~= "ERR "@);
                assert("ERR RedisString not accept empty values"@.skip(4) =~= "RedisString not accept empty values"@);
            }
            Err(err_value("ERR RedisString not accept empty values"))
        } else {
            Ok(RedisString { value })
        }
    }

    /// The value as a bulk string.
    pub fn as_native_type(&self) -> (r: NativeTypes)
        ensures
            r@ == NativeView::BulkString(byte_count(self.value@), self.value@),
    {
        NativeTypes::new_bulk_string(self.value.as_str())
    }

    /// Runs the command that the line `buffer` holds, its words separated
    /// by white space: only `set` is known.
    pub fn run(buffer: String, database: &mut StringMap<RedisTypes>) -> (r: Result<NativeTypes, NativeTypes>)
        requires
            old(database).wf(),
            words_of(buffer@).len() > 0,
        ensures
            final(database).wf(),
            ({
                let words = words_of(buffer@);
                if words[0] == "set"@ {
                    set_outcome(words, stored_texts(old(database)@), stored_texts(final(database)@), r)
                } else {
                    final(database)@ == old(database)@ && (r matches Err(e) && e@ == not_found_error())
                }
            }),
    {
        let buffer_vec = split_whitespace(buffer.as_str());
        let ghost words = words_of(buffer@);
        assert(buffer_vec@.len() == words.len());
        let command = buffer_vec[0].as_str();
        if same_text(command, "set") {
            let mut words_vec: Vec<&str> = Vec::new();
            let mut i: usize = 0;
            while i < buffer_vec.len()
                invariant
                    i <= buffer_vec@.len(),
                    words_vec@.len() == i,
                    forall|j: int| 0 <= j < i ==> #[trigger] words_vec@[j]@ == buffer_vec@[j]@,
                decreases buffer_vec@.len() - i,
            {
                words_vec.push(buffer_vec[i].as_str());
                i = i + 1;
            }
            assert(words_vec@.map_values(|w: &str| w@) =~= words);
            Self::set(words_vec, database)
        } else {
            proof {
                reveal_strlit("ERR Command not found");
                reveal_strlit("ERR ");
                reveal_strlit("Command not found");
                assert("ERR Command not found"@.take(4) =~= "ERR "@);
                assert("ERR Command not found"@.skip(4) =~= "Command not found"@);
            }
            Err(err_value("ERR Command not found"))
        }
    }

    /// SET: the second word is the key, the third the value; more words
    /// are ignored.
    pub fn set(buffer_vec: Vec<&str>, database: &mut StringMap<RedisTypes>) -> (r: Result<NativeTypes, NativeTypes>)
        requires
            old(database).wf(),
            buffer_vec@.len() > 0,
        ensures
            final(database).wf(),
            set_outcome(
                buffer_vec@.map_values(|w: &str| w@),
                stored_texts(old(database)@),
                stored_texts(final(database)@),
                r,
            ),
    {
        if buffer_vec.len() == 1 || buffer_vec.len() == 2 {
            proof {
                reveal_strlit("ERR wrong number of arguments for 'set' command");
                reveal_strlit("ERR ");
                reveal_strlit("wrong number of arguments for 'set' command");
                assert("ERR wrong number of arguments for 'set' command"@.take(4) =~= "ERR "@);
                assert("ERR wrong number of arguments for 'set' command"@.skip(4)
                    =~= "wrong number of arguments for 'set' command"@);
            }
            return Err(err_value("ERR wrong number of arguments for 'set' command"));
        }
        let value = string_of(buffer_vec[2]);
        let redis_string_to_save = Self::new(value)?;
        let key = string_of(buffer_vec[1]);
        let _ = database.insert(key, RedisTypes::String(redis_string_to_save));
        assert(stored_texts(database@) =~= stored_texts(old(database)@).insert(buffer_vec@[1]@, buffer_vec@[2]@));
        proof {
            reveal_strlit("OK");
        }
        Ok(NativeTypes::new_simple_string("OK"))
    }
}

/// What SET with the words `words` does to the texts `before` of the keys,
/// and what it gives.
pub open spec fn set_outcome(
    words: Seq<Seq<char>>,
    before: Map<Seq<char>, Seq<char>>,
    after: Map<Seq<char>, Seq<char>>,
    r: Result<NativeTypes, NativeTypes>,
) -> bool {
    if words.len() == 1 || words.len() == 2 {
        after == before && (r matches Err(e) && e@ == set_arguments_error())
    } else if words[2].len() == 0 {
        after == before && (r matches Err(e) && e@ == not_empty_error())
    } else {
        after == before.insert(words[1], words[2]) && (r matches Ok(v) && v@ == NativeView::SimpleString("OK"@))
    }
}

} // verus!
