//! The RESP codec trait, what each encoding is, and the decoding steps
//! shared by the bulk strings and the arrays.
use vstd::prelude::*;

use super::array::RArray;
use super::bulk_string::RBulkString;
use super::error::ErrorStruct;
use crate::messages::redis_messages;
use crate::text::{byte_count, byte_len, crlf, drop_line_end, crlf_safe, crlf_split, crlf_split_safe, int_to_decimal, nat_to_decimal, parse_isize, parse_isize_spec, split_by_char, split_first_crlf, split_on, string_from_range, string_of, to_chars, without_line_end};

verus! {

/// A native type of the RESP protocol: how a value is written on the wire
/// and read back. `decode` reads from the text that follows the type byte and
/// leaves in it what it did not consume.
pub trait RedisType<T>: Sized {
    /// The texts on which `decode` runs to completion.
    spec fn decodable(s: Seq<char>) -> bool;

    fn encode(t: T) -> String;

    fn decode(redis_encoded_line: &mut String) -> Result<T, ErrorStruct>
        requires
            Self::decodable(old(redis_encoded_line)@),
    ;
}

/// The text that stands for a missing value.
pub open spec fn nil_text() -> Seq<char> {
    seq!['(', 'n', 'i', 'l', ')']
}

/// A decoding error: its prefix and its message.
pub open spec fn parse_error(message: Seq<char>) -> (Seq<char>, Seq<char>) {
    ("ERR_PARSE"@, message)
}

/// The view of an error: its prefix and its message.
pub open spec fn error_view(e: ErrorStruct) -> (Seq<char>, Seq<char>) {
    (e.prefix@, e.message@)
}

pub open spec fn strings_view(v: Seq<String>) -> Seq<Seq<char>> {
    v.map_values(|s: String| s@)
}

/// The view of the result of a decoding into a string.
pub open spec fn text_result(r: Result<String, ErrorStruct>) -> Result<Seq<char>, (Seq<char>, Seq<char>)> {
    match r {
        Ok(t) => Ok(t@),
        Err(e) => Err(error_view(e)),
    }
}

/// The view of the result of a decoding into a vector of strings.
pub open spec fn texts_result(r: Result<Vec<String>, ErrorStruct>) -> Result<Seq<Seq<char>>, (Seq<char>, Seq<char>)> {
    match r {
        Ok(v) => Ok(strings_view(v@)),
        Err(e) => Err(error_view(e)),
    }
}

pub open spec fn simple_string_encoding(t: Seq<char>) -> Seq<char> {
    seq!['+'] + t + crlf()
}

pub open spec fn integer_encoding(n: int) -> Seq<char> {
    seq![':'] + int_to_decimal(n) + crlf()
}

pub open spec fn error_encoding(prefix: Seq<char>, message: Seq<char>) -> Seq<char> {
    seq!['-'] + prefix + seq![' '] + message + crlf()
}

/// A bulk string: its size in bytes, then its text; `(nil)` is written as
/// the bulk string of size -1.
pub open spec fn bulk_encoding(t: Seq<char>) -> Seq<char> {
    if t == nil_text() {
        seq!['$', '-', '1'] + crlf()
    } else {
        seq!['$'] + nat_to_decimal(byte_count(t)) + crlf() + t + crlf()
    }
}

/// The bulk strings of `v`, one after another.
pub open spec fn bulks_encoding(v: Seq<Seq<char>>) -> Seq<char>
    decreases v.len(),
{
    if v.len() == 0 {
        Seq::empty()
    } else {
        bulks_encoding(v.drop_last()) + bulk_encoding(v.last())
    }
}

/// An array: its number of elements, then each element as a bulk string.
pub open spec fn array_encoding(v: Seq<Seq<char>>) -> Seq<char> {
    if v.len() == 0 {
        seq!['*', '0'] + crlf()
    } else {
        seq!['*'] + nat_to_decimal(v.len()) + crlf() + bulks_encoding(v)
    }
}

pub open spec fn bulk_error() -> (Seq<char>, Seq<char>) {
    parse_error("Failed to parse redis bulk string"@)
}

/// What reading the body of a bulk string of the given size gives.
pub open spec fn bulk_body_decode(size: int, rest: Seq<char>) -> (Result<Seq<char>, (Seq<char>, Seq<char>)>, Seq<char>) {
    let (body, rest2) = crlf_split(rest);
    match body {
        None => (Err(bulk_error()), rest2),
        Some(b) => if byte_count(b) == size {
            (Ok(b), rest2)
        } else {
            (Err(bulk_error()), rest2)
        },
    }
}

/// What reading a bulk string whose size was written as `size_text` gives.
pub open spec fn bulk_size_decode(size_text: Seq<char>, rest: Seq<char>) -> (Result<Seq<char>, (Seq<char>, Seq<char>)>, Seq<char>) {
    match parse_isize_spec(size_text) {
        None => (Err(bulk_error()), rest),
        Some(size) => if size == -1 {
            (Ok(nil_text()), rest)
        } else if size < 0 {
            (Err(bulk_error()), rest)
        } else {
            bulk_body_decode(size, rest)
        },
    }
}

pub open spec fn bulk_size_decodable(size_text: Seq<char>, rest: Seq<char>) -> bool {
    match parse_isize_spec(size_text) {
        Some(size) => size >= 0 ==> crlf_split_safe(rest),
        None => true,
    }
}

/// What decoding a bulk string (after its `$`) gives, and what is left.
pub open spec fn bulk_decode(s: Seq<char>) -> (Result<Seq<char>, (Seq<char>, Seq<char>)>, Seq<char>) {
    let (head, rest) = crlf_split(s);
    match head {
        None => (Err(parse_error("Failed to parse redis simple string"@)), rest),
        Some(size_text) => bulk_size_decode(size_text, rest),
    }
}

pub open spec fn bulk_decodable(s: Seq<char>) -> bool {
    &&& crlf_split_safe(s)
    &&& match crlf_split(s).0 {
        Some(size_text) => bulk_size_decodable(size_text, crlf_split(s).1),
        None => true,
    }
}

/// What decoding one element of an array gives: a `$` and a bulk string.
pub open spec fn element_decode(s: Seq<char>) -> (Result<Seq<char>, (Seq<char>, Seq<char>)>, Seq<char>) {
    if s[0] == '$' {
        bulk_decode(s.drop_first())
    } else {
        (Err(parse_error("Failed to parse Redis array (3)"@)), s.drop_first())
    }
}

pub open spec fn element_decodable(s: Seq<char>) -> bool {
    s.len() > 0 && (s[0] == '$' ==> bulk_decodable(s.drop_first()))
}

/// What decoding `n` elements of an array in turn gives.
pub open spec fn bulks_decode(n: nat, s: Seq<char>) -> (Result<Seq<Seq<char>>, (Seq<char>, Seq<char>)>, Seq<char>)
    decreases n,
{
    if n == 0 {
        (Ok(Seq::empty()), s)
    } else {
        let (first, s1) = element_decode(s);
        match first {
            Err(e) => (Err(e), s1),
            Ok(x) => {
                let (others, s2) = bulks_decode((n - 1) as nat, s1);
                match others {
                    Ok(v) => (Ok(seq![x] + v), s2),
                    Err(e) => (Err(e), s2),
                }
            },
        }
    }
}

pub open spec fn bulks_decodable(n: nat, s: Seq<char>) -> bool
    decreases n,
{
    n == 0 || (element_decodable(s) && (element_decode(s).0 is Ok ==> bulks_decodable(
        (n - 1) as nat,
        element_decode(s).1,
    )))
}

/// What reading an array whose length was written as `size_text` gives.
pub open spec fn array_size_decode(size_text: Seq<char>, rest: Seq<char>) -> (Result<Seq<Seq<char>>, (Seq<char>, Seq<char>)>, Seq<char>) {
    match parse_isize_spec(size_text) {
        None => (Err(parse_error("Failed to parse Redis array (2)"@)), rest),
        Some(size) => if size == 0 {
            (Err(("ERR_EMPTY"@, "(empty array)"@)), rest)
        } else if size < 1 {
            (Err(parse_error("Failed to parse Redis array (1)"@)), rest)
        } else {
            bulks_decode(size as nat, rest)
        },
    }
}

pub open spec fn array_size_decodable(size_text: Seq<char>, rest: Seq<char>) -> bool {
    match parse_isize_spec(size_text) {
        Some(size) => size >= 1 ==> bulks_decodable(size as nat, rest),
        None => true,
    }
}

/// What decoding an array (after its `*`) gives, and what is left.
pub open spec fn array_decode(s: Seq<char>) -> (Result<Seq<Seq<char>>, (Seq<char>, Seq<char>)>, Seq<char>) {
    let (head, rest) = crlf_split(s);
    match head {
        None => (Err(parse_error("Failed to parse redis simple string"@)), rest),
        Some(size_text) => array_size_decode(size_text, rest),
    }
}

pub open spec fn array_decodable(s: Seq<char>) -> bool {
    &&& crlf_split_safe(s)
    &&& match crlf_split(s).0 {
        Some(size_text) => array_size_decodable(size_text, crlf_split(s).1),
        None => true,
    }
}

pub fn parse_failure(message: &str) -> (e: ErrorStruct)
    ensures
        error_view(e) == parse_error(message@),
{
    ErrorStruct::new(string_of("ERR_PARSE"), string_of(message))
}

/// Cuts `slice` at its first `\r\n`: returns the text before it and leaves
/// in `slice` the text after it (see `crlf_split` for the other cases).
pub fn remove_first_cr_lf(slice: &mut String) -> (r: Option<String>)
    requires
        crlf_split_safe(old(slice)@),
    ensures
        crlf_split(old(slice)@) == (
            match r {
                Some(head) => Some(head@),
                None => None,
            },
            final(slice)@,
        ),
{
    let (head, rest) = split_first_crlf(slice.as_str());
    *slice = rest;
    head
}

/// Reads the body of a bulk string whose size was written as `sliced_size`.
pub fn verify_parsable_bulk_size(sliced_size: String, rest_of: &mut String) -> (r: Result<String, ErrorStruct>)
    requires
        bulk_size_decodable(sliced_size@, old(rest_of)@),
    ensures
        bulk_size_decode(sliced_size@, old(rest_of)@) == (text_result(r), final(rest_of)@),
{
    match parse_isize(sliced_size.as_str()) {
        Some(size) => {
            if size == -1 {
                let r = redis_messages::nil();
                proof {
                    reveal_strlit("(nil)");
                }
                assert(r@ =~= nil_text());
                Ok(r)
            } else if size < 0 {
                Err(parse_failure("Failed to parse redis bulk string"))
            } else {
                split_b_string(size, rest_of)
            }
        },
        None => Err(parse_failure("Failed to parse redis bulk string")),
    }
}

fn split_b_string(size: isize, rest_of: &mut String) -> (r: Result<String, ErrorStruct>)
    requires
        size >= 0,
        crlf_split_safe(old(rest_of)@),
    ensures
        bulk_body_decode(size as int, old(rest_of)@) == (text_result(r), final(rest_of)@),
{
    match remove_first_cr_lf(rest_of) {
        Some(item) => verify_b_string_size(size, item),
        None => Err(parse_failure("Failed to parse redis bulk string")),
    }
}

fn verify_b_string_size(size: isize, sliced_b_string: String) -> (r: Result<String, ErrorStruct>)
    requires
        size >= 0,
    ensures
        text_result(r) == (if byte_count(sliced_b_string@) == size as int {
            Ok(sliced_b_string@)
        } else {
            Err(bulk_error())
        }),
{
    if byte_len(&sliced_b_string) == size as usize {
        Ok(sliced_b_string)
    } else {
        Err(parse_failure("Failed to parse redis bulk string"))
    }
}


/// The results of decoding the elements so far followed by what decoding the
/// remaining ones gives.
pub open spec fn after_prefix(
    done: Seq<Seq<char>>,
    later: (Result<Seq<Seq<char>>, (Seq<char>, Seq<char>)>, Seq<char>),
) -> (Result<Seq<Seq<char>>, (Seq<char>, Seq<char>)>, Seq<char>) {
    match later.0 {
        Ok(v) => (Ok(done + v), later.1),
        Err(e) => (Err(e), later.1),
    }
}

/// Reads one element of an array from `rest` and appends it to `decoded_vec`.
pub fn fill_bulk_string_vector(rest: &mut String, decoded_vec: &mut Vec<String>) -> (r: Result<(), ErrorStruct>)
    requires
        element_decodable(old(rest)@),
    ensures
        final(rest)@ == element_decode(old(rest)@).1,
        match r {
            Ok(()) => element_decode(old(rest)@).0 matches Ok(x) && strings_view(final(decoded_vec)@)
                == strings_view(old(decoded_vec)@).push(x),
            Err(e) => element_decode(old(rest)@).0 == Err::<Seq<char>, (Seq<char>, Seq<char>)>(
                error_view(e),
            ) && final(decoded_vec)@ == old(decoded_vec)@,
        },
{
    let v = to_chars(rest.as_str());
    let first = v[0];
    *rest = string_from_range(&v, 1, v.len());
    assert(v@.subrange(1, v@.len() as int) =~= v@.drop_first());
    if first == '$' {
        match RBulkString::decode(rest) {
            Ok(array_elem) => {
                decoded_vec.push(array_elem);
                assert(strings_view(decoded_vec@) =~= strings_view(old(decoded_vec)@).push(
                    decoded_vec@.last()@,
                ));
                Ok(())
            },
            Err(e) => Err(e),
        }
    } else {
        Err(parse_failure("Failed to parse Redis array (3)"))
    }
}

/// Reads `size` elements of an array from `rest`.
pub fn get_bulk_string_vector(size: isize, rest: &mut String) -> (r: Result<Vec<String>, ErrorStruct>)
    requires
        bulks_decodable((if size < 0 { 0 } else { size }) as nat, old(rest)@),
    ensures
        bulks_decode((if size < 0 { 0 } else { size }) as nat, old(rest)@) == (
            texts_result(r),
            final(rest)@,
        ),
{
    let ghost n: nat = (if size < 0 { 0 } else { size }) as nat;
    let mut decoded_vec: Vec<String> = Vec::new();
    let mut i: isize = 0;
    while i < size
        invariant
            n == (if size < 0 { 0 } else { size }),
            0 <= i,
            size < 0 || i <= size,
            i <= n,
            bulks_decodable((n - i) as nat, rest@),
            bulks_decode(n, old(rest)@) == after_prefix(
                strings_view(decoded_vec@),
                bulks_decode((n - i) as nat, rest@),
            ),
        decreases size - i,
    {
        let ghost before = rest@;
        let ghost done = strings_view(decoded_vec@);
        assert(bulks_decode((n - i) as nat, before) == {
            let (first, s1) = element_decode(before);
            match first {
                Err(e) => (Err(e), s1),
                Ok(x) => {
                    let (others, s2) = bulks_decode((n - i - 1) as nat, s1);
                    match others {
                        Ok(v) => (Ok(seq![x] + v), s2),
                        Err(e) => (Err(e), s2),
                    }
                },
            }
        });
        match fill_bulk_string_vector(rest, &mut decoded_vec) {
            Ok(()) => {
                proof {
                    let x = element_decode(before).0->Ok_0;
                    let later = bulks_decode((n - i - 1) as nat, rest@);
                    match later.0 {
                        Ok(v) => {
                            assert(done + (seq![x] + v) =~= done.push(x) + v);
                        },
                        Err(e) => {},
                    }
                }
            },
            Err(e) => {
                return Err(e);
            },
        }
        i = i + 1;
    }
    assert(strings_view(decoded_vec@) + Seq::<Seq<char>>::empty() =~= strings_view(decoded_vec@));
    Ok(decoded_vec)
}

/// Reads an array whose number of elements was written as `sliced_size`.
pub fn verify_parsable_array_size(sliced_size: &String, rest: &mut String) -> (r: Result<Vec<String>, ErrorStruct>)
    requires
        array_size_decodable(sliced_size@, old(rest)@),
    ensures
        array_size_decode(sliced_size@, old(rest)@) == (texts_result(r), final(rest)@),
{
    if let Some(size) = parse_isize(sliced_size.as_str()) {
        if size == 0 {
            Err(ErrorStruct::new(string_of("ERR_EMPTY"), string_of("(empty array)")))
        } else if size < 1 {
            Err(parse_failure("Failed to parse Redis array (1)"))
        } else {
            get_bulk_string_vector(size, rest)
        }
    } else {
        Err(parse_failure("Failed to parse Redis array (2)"))
    }
}


/// Whether a bulk string can be read from `s` (after its `$`).
pub fn bulk_decodable_check(s: &String) -> (b: bool)
    ensures
        b == bulk_decodable(s@),
{
    if !crlf_safe(s.as_str()) {
        return false;
    }
    let (head, rest) = split_first_crlf(s.as_str());
    match head {
        None => true,
        Some(size_text) => match parse_isize(size_text.as_str()) {
            Some(size) => if size >= 0 {
                crlf_safe(rest.as_str())
            } else {
                true
            },
            None => true,
        },
    }
}

/// Whether one element of an array can be read from `s`.
pub fn element_decodable_check(s: &String) -> (b: bool)
    ensures
        b == element_decodable(s@),
{
    let v = to_chars(s.as_str());
    if v.len() == 0 {
        return false;
    }
    if v[0] != '$' {
        return true;
    }
    let rest = string_from_range(&v, 1, v.len());
    assert(v@.subrange(1, v@.len() as int) =~= s@.drop_first());
    bulk_decodable_check(&rest)
}

/// Whether `size` elements of an array can be read in turn from `s`.
pub fn bulks_decodable_check(size: isize, s: &String) -> (b: bool)
    requires
        size >= 0,
    ensures
        b == bulks_decodable(size as nat, s@),
{
    let mut rest = s.clone();
    let mut scratch: Vec<String> = Vec::new();
    let mut i: isize = 0;
    while i < size
        invariant
            0 <= i <= size,
            bulks_decodable(size as nat, s@) == bulks_decodable((size - i) as nat, rest@),
        decreases size - i,
    {
        if !element_decodable_check(&rest) {
            return false;
        }
        match fill_bulk_string_vector(&mut rest, &mut scratch) {
            Ok(()) => {},
            Err(_) => {
                return true;
            },
        }
        i = i + 1;
    }
    true
}

/// Whether an array can be read from `s` (after its `*`).
pub fn array_decodable_check(s: &String) -> (b: bool)
    ensures
        b == array_decodable(s@),
{
    if !crlf_safe(s.as_str()) {
        return false;
    }
    let (head, rest) = split_first_crlf(s.as_str());
    match head {
        None => true,
        Some(size_text) => match parse_isize(size_text.as_str()) {
            Some(size) => if size >= 1 {
                bulks_decodable_check(size, &rest)
            } else {
                true
            },
            None => true,
        },
    }
}

/// What a line typed in a terminal becomes: without the `\r\n` (or `\n`)
/// that ends it, its words separated by single spaces, as an array of bulk
/// strings; refused when the first word has 30 bytes or more.
pub open spec fn netcat_encoding(line: Seq<char>) -> Result<Seq<char>, (Seq<char>, Seq<char>)> {
    let words = split_on(without_line_end(line), ' ');
    if byte_count(words[0]) >= 30 {
        Err(("ERR"@, "There is no command which name has more than "@ + nat_to_decimal(30)
            + " characters\r\n"@))
    } else {
        Ok(array_encoding(words))
    }
}

/// With **Netcat** you can receive, for example, the input
/// "set key value\r\n"; this function converts it, by the Redis protocol,
/// into "*3\r\n$3\r\nset\r\n$3\r\nkey\r\n$5\r\nvalue\r\n".
pub fn encode_netcat_input(line: String) -> (r: Result<String, ErrorStruct>)
    ensures
        text_result(r) == netcat_encoding(line@),
{
    let body = drop_line_end(line.as_str());
    let vector_words = split_by_char(body.as_str(), ' ');
    let max_chars_in_command: usize = 30;
    if byte_len(&vector_words[0]) >= max_chars_in_command {
        return Err(ErrorStruct::from(redis_messages::maximum_amount_exceeded(max_chars_in_command)));
    }
    Ok(RArray::encode(vector_words))
}

} // verus!
