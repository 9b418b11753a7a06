//! A second RESP codec, with its own error type: every decoding failure
//! is reported with one message, and arrays of no elements are written as the
//! missing bulk string.
use vstd::prelude::*;

use crate::native_types::redis_type::{
    bulk_encoding, bulks_encoding, error_encoding, integer_encoding, nil_text,
    simple_string_encoding, strings_view,
};
use crate::native_types::RBulkString as NativeBulkString;
use crate::native_types::RedisType as NativeRedisType;
use crate::native_types::storable_text;
use crate::text::{
    int_to_decimal, lemma_crlf_split_line, lemma_decimal_no_cr, lemma_first_index_unique,
    lemma_parse_isize_of_decimal, no_cr,
    byte_count, byte_len, crlf, crlf_split, crlf_split_safe, find_char, first_index, nat_to_decimal,
    parse_isize, parse_isize_spec, push_char, push_crlf, push_isize, push_text, push_u64,
    split_first_char, split_first_crlf, string_from_range, string_of, to_chars,
};

verus! {

/// An error of this codec: a prefix and a message.
#[derive(Debug)]
pub struct Error {
    pub prefix: String,
    pub message: String,
}

impl Error {
    pub fn new(prefix: String, message: String) -> (e: Self)
        ensures
            e.prefix == prefix,
            e.message == message,
    {
        Error { prefix, message }
    }

    /// The prefix, a space, then the message.
    pub fn print_it(&self) -> (r: String)
        ensures
            r@ == self.prefix@ + seq![' '] + self.message@,
    {
        let mut printed = string_of(self.prefix.as_str());
        push_char(&mut printed, ' ');
        push_text(&mut printed, self.message.as_str());
        printed
    }
}

/// How a value is written on the wire and read back; `decode` reads from the
/// text that follows the type byte and leaves in it what it did not consume.
pub trait RedisType<T>: Sized {
    /// The texts on which `decode` runs to completion.
    spec fn decodable(s: Seq<char>) -> bool;

    fn encode(t: T) -> String;

    fn decode(redis_encoded_line: &mut String) -> Result<T, Error>
        requires
            Self::decodable(old(redis_encoded_line)@),
    ;
}

pub struct RSimpleString;

pub struct RError;

pub struct RInteger;

pub struct RBulkString;

pub struct RArray;

/// The one error of this codec's decoders but the arrays'.
pub open spec fn simple_error() -> (Seq<char>, Seq<char>) {
    ("ERR_PARSE"@, "Failed to parse redis simple string"@)
}

/// The error of this codec's array decoder.
pub open spec fn array_error() -> (Seq<char>, Seq<char>) {
    ("ERR_PARSE"@, "Failed to parse Redis array"@)
}

pub open spec fn error_view(e: Error) -> (Seq<char>, Seq<char>) {
    (e.prefix@, e.message@)
}

pub open spec fn text_result(r: Result<String, Error>) -> Result<Seq<char>, (Seq<char>, Seq<char>)> {
    match r {
        Ok(t) => Ok(t@),
        Err(e) => Err(error_view(e)),
    }
}

fn simple_failure() -> (e: Error)
    ensures
        error_view(e) == simple_error(),
{
    Error::new(string_of("ERR_PARSE"), string_of("Failed to parse redis simple string"))
}

fn array_failure() -> (e: Error)
    ensures
        error_view(e) == array_error(),
{
    Error::new(string_of("ERR_PARSE"), string_of("Failed to parse Redis array"))
}

/// What decoding a simple string (after its `+`) gives, and what is left.
pub open spec fn simple_string_decode(s: Seq<char>) -> (Result<Seq<char>, (Seq<char>, Seq<char>)>, Seq<char>) {
    match crlf_split(s).0 {
        Some(t) => (Ok(t), crlf_split(s).1),
        None => (Err(simple_error()), crlf_split(s).1),
    }
}

/// What decoding an integer (after its `:`) gives, and what is left.
pub open spec fn integer_decode(s: Seq<char>) -> (Result<int, (Seq<char>, Seq<char>)>, Seq<char>) {
    match crlf_split(s).0 {
        Some(t) => match parse_isize_spec(t) {
            Some(n) => (Ok(n), crlf_split(s).1),
            None => (Err(simple_error()), crlf_split(s).1),
        },
        None => (Err(simple_error()), crlf_split(s).1),
    }
}

/// What decoding an error (after its `-`) gives, and what is left.
pub open spec fn error_decode(s: Seq<char>) -> (Result<(Seq<char>, Seq<char>), (Seq<char>, Seq<char>)>, Seq<char>) {
    match crlf_split(s).0 {
        Some(t) => match first_index(t, ' ') {
            Some(k) => (Ok((t.take(k), t.skip(k + 1))), crlf_split(s).1),
            None => (Err(simple_error()), crlf_split(s).1),
        },
        None => (Err(simple_error()), crlf_split(s).1),
    }
}

/// What reading the body of a bulk string of the given size gives.
pub open spec fn bulk_body_decode(size: int, rest: Seq<char>) -> (Result<Seq<char>, (Seq<char>, Seq<char>)>, Seq<char>) {
    match crlf_split(rest).0 {
        Some(b) => if byte_count(b) == (size as usize) as nat {
            (Ok(b), crlf_split(rest).1)
        } else {
            (Err(simple_error()), crlf_split(rest).1)
        },
        None => (Err(simple_error()), crlf_split(rest).1),
    }
}

/// What reading a bulk string whose size was written as `size_text` gives.
pub open spec fn bulk_size_decode(size_text: Seq<char>, rest: Seq<char>) -> (Result<Seq<char>, (Seq<char>, Seq<char>)>, Seq<char>) {
    match parse_isize_spec(size_text) {
        None => (Err(simple_error()), rest),
        Some(size) => if size == -1 {
            (Ok(nil_text()), rest)
        } else {
            bulk_body_decode(size, rest)
        },
    }
}

pub open spec fn bulk_size_decodable(size_text: Seq<char>, rest: Seq<char>) -> bool {
    match parse_isize_spec(size_text) {
        Some(size) => size != -1 ==> crlf_split_safe(rest),
        None => true,
    }
}

/// What decoding a bulk string (after its `$`) gives, and what is left.
pub open spec fn bulk_decode(s: Seq<char>) -> (Result<Seq<char>, (Seq<char>, Seq<char>)>, Seq<char>) {
    match crlf_split(s).0 {
        Some(size_text) => bulk_size_decode(size_text, crlf_split(s).1),
        None => (Err(simple_error()), crlf_split(s).1),
    }
}

pub open spec fn bulk_decodable(s: Seq<char>) -> bool {
    &&& crlf_split_safe(s)
    &&& match crlf_split(s).0 {
        Some(size_text) => bulk_size_decodable(size_text, crlf_split(s).1),
        None => true,
    }
}

/// What one step of reading the elements of an array gives: the first
/// character is dropped, then a bulk string is read when a line follows.
pub open spec fn element_step(s: Seq<char>) -> (Option<Seq<char>>, Seq<char>) {
    let s1 = s.drop_first();
    match crlf_split(s1).0 {
        None => (None, crlf_split(s1).1),
        Some(size_text) => (
            Some(bulk_size_decode(size_text, crlf_split(s1).1).0->Ok_0),
            bulk_size_decode(size_text, crlf_split(s1).1).1,
        ),
    }
}

/// The step runs to completion: there is a character to drop, and an
/// element that starts is read without error.
pub open spec fn element_step_safe(s: Seq<char>) -> bool {
    let s1 = s.drop_first();
    &&& s.len() > 0
    &&& crlf_split_safe(s1)
    &&& match crlf_split(s1).0 {
        Some(size_text) => bulk_size_decodable(size_text, crlf_split(s1).1) && bulk_size_decode(
            size_text,
            crlf_split(s1).1,
        ).0 is Ok,
        None => true,
    }
}

/// What `n` steps of reading elements give: the elements read, in order.
pub open spec fn elements_decode(n: nat, s: Seq<char>) -> (Seq<Seq<char>>, Seq<char>)
    decreases n,
{
    if n == 0 {
        (Seq::empty(), s)
    } else {
        let (first, s1) = element_step(s);
        let (others, s2) = elements_decode((n - 1) as nat, s1);
        match first {
            Some(x) => (seq![x] + others, s2),
            None => (others, s2),
        }
    }
}

pub open spec fn elements_decodable(n: nat, s: Seq<char>) -> bool
    decreases n,
{
    n == 0 || (element_step_safe(s) && elements_decodable((n - 1) as nat, element_step(s).1))
}

/// What decoding an array (after its `*`) gives, and what is left.
pub open spec fn array_decode(s: Seq<char>) -> (Result<Seq<Seq<char>>, (Seq<char>, Seq<char>)>, Seq<char>) {
    let (head, rest) = crlf_split(s);
    match head {
        None => (Err(simple_error()), rest),
        Some(size_text) => match parse_isize_spec(size_text) {
            None => (Err(array_error()), rest),
            Some(size) => if size < 1 {
                (Err(array_error()), rest)
            } else {
                (Ok(elements_decode(size as nat, rest).0), elements_decode(size as nat, rest).1)
            },
        },
    }
}

pub open spec fn array_decodable(s: Seq<char>) -> bool {
    &&& crlf_split_safe(s)
    &&& match crlf_split(s).0 {
        Some(size_text) => match parse_isize_spec(size_text) {
            Some(size) => size >= 1 ==> elements_decodable(size as nat, crlf_split(s).1),
            None => true,
        },
        None => true,
    }
}

/// An array of this codec: as in RESP, but the empty array is written as
/// the missing bulk string.
pub open spec fn array_encoding(v: Seq<Seq<char>>) -> Seq<char> {
    if v.len() == 0 {
        seq!['$', '-', '1'] + crlf()
    } else {
        seq!['*'] + nat_to_decimal(v.len()) + crlf() + bulks_encoding(v)
    }
}

fn remove_first_cr_lf(slice: &mut String) -> (r: Option<String>)
    requires
        crlf_split_safe(old(slice)@),
    ensures
        crlf_split(old(slice)@) == (
            match r {
                Some(head) => Some(head@),
                None => None,
            },
            final(slice)@,
        ),
{
    let (head, rest) = split_first_crlf(slice.as_str());
    *slice = rest;
    head
}

impl RedisType<String> for RSimpleString {
    open spec fn decodable(s: Seq<char>) -> bool {
        crlf_split_safe(s)
    }

    fn encode(text: String) -> (r: String)
        ensures
            r@ == simple_string_encoding(text@),
    {
        let mut encoded = string_of("+");
        proof {
            reveal_strlit("+");
        }
        push_text(&mut encoded, text.as_str());
        push_crlf(&mut encoded);
        encoded
    }

    fn decode(string: &mut String) -> (r: Result<String, Error>)
        ensures
            simple_string_decode(old(string)@) == (text_result(r), final(string)@),
    {
        if let Some(sliced_s_string) = remove_first_cr_lf(string) {
            Ok(sliced_s_string)
        } else {
            Err(simple_failure())
        }
    }
}

pub open spec fn error_result(r: Result<Error, Error>) -> Result<(Seq<char>, Seq<char>), (Seq<char>, Seq<char>)> {
    match r {
        Ok(e) => Ok(error_view(e)),
        Err(e) => Err(error_view(e)),
    }
}

impl RedisType<Error> for RError {
    open spec fn decodable(s: Seq<char>) -> bool {
        crlf_split_safe(s)
    }

    fn encode(err: Error) -> (r: String)
        ensures
            r@ == error_encoding(err.prefix@, err.message@),
    {
        let mut encoded = string_of("-");
        proof {
            reveal_strlit("-");
        }
        push_text(&mut encoded, err.prefix.as_str());
        push_char(&mut encoded, ' ');
        push_text(&mut encoded, err.message.as_str());
        push_crlf(&mut encoded);
        encoded
    }

    fn decode(error: &mut String) -> (r: Result<Error, Error>)
        ensures
            error_decode(old(error)@) == (error_result(r), final(error)@),
    {
        if let Some(sliced_error) = remove_first_cr_lf(error) {
            let v = to_chars(sliced_error.as_str());
            if let Some(middle_space) = find_char(&v, ' ') {
                let prefix = string_from_range(&v, 0, middle_space);
                let err_message = string_from_range(&v, middle_space + 1, v.len());
                assert(v@.subrange(0, middle_space as int) =~= sliced_error@.take(middle_space as int));
                assert(v@.subrange(middle_space + 1, v@.len() as int) =~= sliced_error@.skip(
                    middle_space + 1,
                ));
                Ok(Error { prefix, message: err_message })
            } else {
                Err(simple_failure())
            }
        } else {
            Err(simple_failure())
        }
    }
}

pub open spec fn integer_result(r: Result<isize, Error>) -> Result<int, (Seq<char>, Seq<char>)> {
    match r {
        Ok(n) => Ok(n as int),
        Err(e) => Err(error_view(e)),
    }
}

impl RedisType<isize> for RInteger {
    open spec fn decodable(s: Seq<char>) -> bool {
        crlf_split_safe(s)
    }

    fn encode(num: isize) -> (r: String)
        ensures
            r@ == integer_encoding(num as int),
    {
        let mut encoded = string_of(":");
        proof {
            reveal_strlit(":");
        }
        push_isize(&mut encoded, num);
        push_crlf(&mut encoded);
        encoded
    }

    fn decode(value: &mut String) -> (r: Result<isize, Error>)
        ensures
            integer_decode(old(value)@) == (integer_result(r), final(value)@),
    {
        if let Some(sliced_value) = remove_first_cr_lf(value) {
            if let Some(integer) = parse_isize(sliced_value.as_str()) {
                Ok(integer)
            } else {
                Err(simple_failure())
            }
        } else {
            Err(simple_failure())
        }
    }
}

impl RedisType<String> for RBulkString {
    open spec fn decodable(s: Seq<char>) -> bool {
        bulk_decodable(s)
    }

    fn encode(text: String) -> (r: String)
        ensures
            r@ == bulk_encoding(text@),
    {
        NativeBulkString::encode(text)
    }

    fn decode(bulk: &mut String) -> (r: Result<String, Error>)
        ensures
            bulk_decode(old(bulk)@) == (text_result(r), final(bulk)@),
    {
        if let Some(sliced_size) = remove_first_cr_lf(bulk) {
            verify_that_size_is_parsable(sliced_size, bulk)
        } else {
            Err(simple_failure())
        }
    }
}

pub open spec fn texts_result(r: Result<Vec<String>, Error>) -> Result<Seq<Seq<char>>, (Seq<char>, Seq<char>)> {
    match r {
        Ok(v) => Ok(strings_view(v@)),
        Err(e) => Err(error_view(e)),
    }
}

impl RedisType<Vec<String>> for RArray {
    open spec fn decodable(s: Seq<char>) -> bool {
        array_decodable(s)
    }

    fn encode(array: Vec<String>) -> (r: String)
        ensures
            r@ == array_encoding(strings_view(array@)),
    {
        if array.len() == 0 {
            let r = string_of("$-1\r\n");
            proof {
                reveal_strlit("$-1\r\n");
            }
            assert(r@ =~= seq!['$', '-', '1'] + crlf());
            r
        } else {
            let mut encoded = string_of("*");
            proof {
                reveal_strlit("*");
            }
            push_u64(&mut encoded, array.len() as u64);
            push_crlf(&mut encoded);
            crate::native_types::array::push_bulks(&mut encoded, &array);
            encoded
        }
    }

    fn decode(bulk_array: &mut String) -> (r: Result<Vec<String>, Error>)
        ensures
            array_decode(old(bulk_array)@) == (texts_result(r), final(bulk_array)@),
    {
        if let Some(sliced_size) = remove_first_cr_lf(bulk_array) {
            verify_parsable_size_for_array(&sliced_size, bulk_array)
        } else {
            Err(simple_failure())
        }
    }
}

fn verify_parsable_size_for_array(sliced_size: &String, rest: &mut String) -> (r: Result<Vec<String>, Error>)
    requires
        match parse_isize_spec(sliced_size@) {
            Some(size) => size >= 1 ==> elements_decodable(size as nat, old(rest)@),
            None => true,
        },
    ensures
        match parse_isize_spec(sliced_size@) {
            None => texts_result(r) == Err::<Seq<Seq<char>>, (Seq<char>, Seq<char>)>(array_error())
                && final(rest)@ == old(rest)@,
            Some(size) => if size < 1 {
                texts_result(r) == Err::<Seq<Seq<char>>, (Seq<char>, Seq<char>)>(array_error())
                    && final(rest)@ == old(rest)@
            } else {
                texts_result(r) == Ok::<Seq<Seq<char>>, (Seq<char>, Seq<char>)>(
                    elements_decode(size as nat, old(rest)@).0,
                ) && final(rest)@ == elements_decode(size as nat, old(rest)@).1
            },
        },
{
    if let Some(size) = parse_isize(sliced_size.as_str()) {
        if size < 1 {
            Err(array_failure())
        } else {
            Ok(get_bulk_string_vector(size, rest))
        }
    } else {
        Err(array_failure())
    }
}

fn get_bulk_string_vector(size: isize, rest: &mut String) -> (r: Vec<String>)
    requires
        size >= 1,
        elements_decodable(size as nat, old(rest)@),
    ensures
        (strings_view(r@), final(rest)@) == elements_decode(size as nat, old(rest)@),
{
    let ghost n = size as nat;
    let mut decoded_vec: Vec<String> = Vec::new();
    let mut i: isize = 0;
    while i < size
        invariant
            0 <= i <= size,
            n == size,
            elements_decodable((n - i) as nat, rest@),
            elements_decode(n, old(rest)@) == (
                strings_view(decoded_vec@) + elements_decode((n - i) as nat, rest@).0,
                elements_decode((n - i) as nat, rest@).1,
            ),
        decreases size - i,
    {
        let ghost before = rest@;
        let ghost done = strings_view(decoded_vec@);
        let (_, dropped) = split_first_char(rest.as_str());
        *rest = dropped;
        if let Some(sliced_size) = remove_first_cr_lf(rest) {
            let array_elem = match verify_that_size_is_parsable(sliced_size, rest) {
                Ok(elem) => elem,
                Err(_) => String::new(),
            };
            decoded_vec.push(array_elem);
            proof {
                let x = element_step(before).0->Some_0;
                let later = elements_decode((n - i - 1) as nat, rest@);
                assert(strings_view(decoded_vec@) =~= done.push(x));
                assert(done + (seq![x] + later.0) =~= done.push(x) + later.0);
            }
        }
        i = i + 1;
    }
    assert(strings_view(decoded_vec@) + Seq::<Seq<char>>::empty() =~= strings_view(decoded_vec@));
    decoded_vec
}

fn verify_that_size_is_parsable(sliced_size: String, rest_of: &mut String) -> (r: Result<String, Error>)
    requires
        bulk_size_decodable(sliced_size@, old(rest_of)@),
    ensures
        bulk_size_decode(sliced_size@, old(rest_of)@) == (text_result(r), final(rest_of)@),
{
    if let Some(size) = parse_isize(sliced_size.as_str()) {
        if size == -1 {
            let r = string_of("(nil)");
            proof {
                reveal_strlit("(nil)");
            }
            assert(r@ =~= nil_text());
            Ok(r)
        } else {
            split_b_string(size, rest_of)
        }
    } else {
        Err(simple_failure())
    }
}

fn split_b_string(size: isize, rest_of: &mut String) -> (r: Result<String, Error>)
    requires
        crlf_split_safe(old(rest_of)@),
    ensures
        bulk_body_decode(size as int, old(rest_of)@) == (text_result(r), final(rest_of)@),
{
    if let Some(sliced_b_string) = remove_first_cr_lf(rest_of) {
        verify_size_of_b_string(size, sliced_b_string)
    } else {
        Err(simple_failure())
    }
}

fn verify_size_of_b_string(size: isize, sliced_b_string: String) -> (r: Result<String, Error>)
    ensures
        text_result(r) == (if byte_count(sliced_b_string@) == (size as usize) as nat {
            Ok(sliced_b_string@)
        } else {
            Err(simple_error())
        }),
{
    if byte_len(&sliced_b_string) == size as usize {
        Ok(sliced_b_string)
    } else {
        Err(simple_failure())
    }
}


/// Decoding an encoded simple string gives it back and leaves what followed.
pub proof fn law_simple_string_roundtrip(t: Seq<char>, rest: Seq<char>)
    requires
        no_cr(t),
    ensures
        crlf_split_safe(simple_string_encoding(t).drop_first() + rest),
        simple_string_decode(simple_string_encoding(t).drop_first() + rest) == (
            Ok::<Seq<char>, (Seq<char>, Seq<char>)>(t),
            rest,
        ),
{
    assert(simple_string_encoding(t).drop_first() + rest =~= t + crlf() + rest);
    lemma_crlf_split_line(t, rest);
}

/// Decoding an encoded integer gives it back and leaves what followed.
pub proof fn law_integer_roundtrip(n: int, rest: Seq<char>)
    requires
        isize::MIN <= n <= isize::MAX,
    ensures
        crlf_split_safe(integer_encoding(n).drop_first() + rest),
        integer_decode(integer_encoding(n).drop_first() + rest) == (
            Ok::<int, (Seq<char>, Seq<char>)>(n),
            rest,
        ),
{
    assert(integer_encoding(n).drop_first() + rest =~= int_to_decimal(n) + crlf() + rest);
    lemma_decimal_no_cr(n);
    lemma_crlf_split_line(int_to_decimal(n), rest);
    lemma_parse_isize_of_decimal(n);
}

/// Decoding an encoded error gives its prefix and message back, when the
/// prefix holds no space.
pub proof fn law_error_roundtrip(prefix: Seq<char>, message: Seq<char>, rest: Seq<char>)
    requires
        no_cr(prefix),
        no_cr(message),
        forall|i: int| 0 <= i < prefix.len() ==> prefix[i] != ' ',
    ensures
        crlf_split_safe(error_encoding(prefix, message).drop_first() + rest),
        error_decode(error_encoding(prefix, message).drop_first() + rest) == (
            Ok::<(Seq<char>, Seq<char>), (Seq<char>, Seq<char>)>((prefix, message)),
            rest,
        ),
{
    let line = prefix + seq![' '] + message;
    assert(error_encoding(prefix, message).drop_first() + rest =~= line + crlf() + rest);
    assert forall|i: int| 0 <= i < line.len() implies line[i] != '\r' by {
        if i < prefix.len() {
            assert(line[i] == prefix[i]);
        } else if i > prefix.len() {
            assert(line[i] == message[i - prefix.len() - 1]);
        }
    }
    lemma_crlf_split_line(line, rest);
    assert forall|j: int| 0 <= j < prefix.len() implies line[j] != ' ' by {
        assert(line[j] == prefix[j]);
    }
    lemma_first_index_unique(line, ' ', prefix.len() as int);
    assert(line.take(prefix.len() as int) =~= prefix);
    assert(line.skip(prefix.len() as int + 1) =~= message);
}

/// Decoding an encoded bulk string gives the text back and leaves what
/// followed it.
pub proof fn law_bulk_string_roundtrip(t: Seq<char>, rest: Seq<char>)
    requires
        storable_text(t),
    ensures
        bulk_decodable(bulk_encoding(t).drop_first() + rest),
        bulk_decode(bulk_encoding(t).drop_first() + rest) == (
            Ok::<Seq<char>, (Seq<char>, Seq<char>)>(t),
            rest,
        ),
{
    if t == nil_text() {
        let size_text = int_to_decimal(-1);
        assert(nat_to_decimal(1) =~= seq!['1']);
        assert(bulk_encoding(t).drop_first() + rest =~= size_text + crlf() + rest);
        lemma_decimal_no_cr(-1);
        lemma_crlf_split_line(size_text, rest);
        lemma_parse_isize_of_decimal(-1);
    } else {
        let size_text = nat_to_decimal(byte_count(t));
        assert(size_text == int_to_decimal(byte_count(t) as int));
        assert(bulk_encoding(t).drop_first() + rest =~= size_text + crlf() + (t + crlf() + rest));
        lemma_decimal_no_cr(byte_count(t) as int);
        lemma_crlf_split_line(size_text, t + crlf() + rest);
        lemma_parse_isize_of_decimal(byte_count(t) as int);
        lemma_crlf_split_line(t, rest);
    }
}

/// Reading the bulk strings of `v` in turn gives `v` back.
#[verifier::rlimit(50)]
pub proof fn lemma_elements_roundtrip(v: Seq<Seq<char>>, rest: Seq<char>)
    requires
        forall|i: int| 0 <= i < v.len() ==> storable_text(#[trigger] v[i]),
    ensures
        elements_decodable(v.len(), bulks_encoding(v) + rest),
        elements_decode(v.len(), bulks_encoding(v) + rest) == (v, rest),
    decreases v.len(),
{
    if v.len() == 0 {
        assert(bulks_encoding(v) + rest =~= rest);
        assert(v =~= Seq::<Seq<char>>::empty());
    } else {
        crate::native_types::lemma_bulks_encoding_front(v);
        let others = bulks_encoding(v.drop_first()) + rest;
        let s = bulks_encoding(v) + rest;
        assert(s =~= bulk_encoding(v[0]) + others);
        assert(s.drop_first() =~= bulk_encoding(v[0]).drop_first() + others);
        law_bulk_string_roundtrip(v[0], others);
        assert(element_step_safe(s));
        assert(element_step(s) == (Some(v[0]), others));
        lemma_elements_roundtrip(v.drop_first(), rest);
        assert(seq![v[0]] + v.drop_first() =~= v);
    }
}

/// Decoding an encoded nonempty array gives its elements back and leaves
/// what followed it.
pub proof fn law_array_roundtrip(v: Seq<Seq<char>>, rest: Seq<char>)
    requires
        0 < v.len() <= isize::MAX,
        forall|i: int| 0 <= i < v.len() ==> storable_text(#[trigger] v[i]),
    ensures
        array_decodable(array_encoding(v).drop_first() + rest),
        array_decode(array_encoding(v).drop_first() + rest) == (
            Ok::<Seq<Seq<char>>, (Seq<char>, Seq<char>)>(v),
            rest,
        ),
{
    let size_text = nat_to_decimal(v.len());
    assert(size_text == int_to_decimal(v.len() as int));
    assert(array_encoding(v).drop_first() + rest =~= size_text + crlf() + (bulks_encoding(v) + rest));
    lemma_decimal_no_cr(v.len() as int);
    lemma_crlf_split_line(size_text, bulks_encoding(v) + rest);
    lemma_parse_isize_of_decimal(v.len() as int);
    lemma_elements_roundtrip(v, rest);
}

} // verus!
