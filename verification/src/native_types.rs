//! The native types of the RESP protocol, and what their encoders and
//! decoders promise together.
use vstd::prelude::*;

pub mod array;
pub mod bulk_string;
pub mod error;
pub mod error_severity;
pub mod integer;
pub mod redis_type;
pub mod simple_string;

pub use array::RArray;
pub use bulk_string::RBulkString;
pub use error::{ErrorStruct, RError};
pub use integer::RInteger;
pub use redis_type::RedisType;
pub use simple_string::RSimpleString;

use error::{error_decode};
use integer::integer_decode;
use redis_type::{
    array_decodable, array_decode, array_encoding, bulk_decodable, bulk_decode, bulk_encoding,
    bulks_decodable, bulks_decode, bulks_encoding, element_decodable, element_decode,
    error_encoding, integer_encoding, nil_text, simple_string_encoding,
};
use simple_string::simple_string_decode;
use crate::text::{
    byte_count, byte_len, crlf, crlf_split, crlf_split_safe, find_char, first_index,
    int_to_decimal, lemma_crlf_split_line, lemma_decimal_no_cr, lemma_first_index_unique,
    lemma_parse_isize_of_decimal, lemma_parse_usize_of_decimal, nat_to_decimal, no_cr,
    parse_isize, parse_isize_spec, parse_usize, parse_usize_spec, push_char, push_crlf,
    push_isize, push_text, push_u64, split_first_char, split_first_crlf, string_from_range,
    string_of, to_chars,
};

verus! {

/// A text that a bulk string can carry and give back: no carriage return,
/// and a size in bytes that an `isize` holds.
pub open spec fn storable_text(t: Seq<char>) -> bool {
    no_cr(t) && byte_count(t) <= isize::MAX
}

/// Decoding an encoded simple string gives the string back and leaves what
/// followed it.
pub proof fn law_simple_string_roundtrip(t: Seq<char>, rest: Seq<char>)
    requires
        no_cr(t),
    ensures
        crlf_split_safe(simple_string_encoding(t).drop_first() + rest),
        simple_string_decode(simple_string_encoding(t).drop_first() + rest) == (
            Ok::<Seq<char>, (Seq<char>, Seq<char>)>(t),
            rest,
        ),
{
    assert(simple_string_encoding(t).drop_first() + rest =~= t + crlf() + rest);
    lemma_crlf_split_line(t, rest);
}

/// Decoding an encoded integer gives the integer back and leaves what
/// followed it.
pub proof fn law_integer_roundtrip(n: int, rest: Seq<char>)
    requires
        isize::MIN <= n <= isize::MAX,
    ensures
        crlf_split_safe(integer_encoding(n).drop_first() + rest),
        integer_decode(integer_encoding(n).drop_first() + rest) == (
            Ok::<int, (Seq<char>, Seq<char>)>(n),
            rest,
        ),
{
    assert(integer_encoding(n).drop_first() + rest =~= int_to_decimal(n) + crlf() + rest);
    lemma_decimal_no_cr(n);
    lemma_crlf_split_line(int_to_decimal(n), rest);
    lemma_parse_isize_of_decimal(n);
}

/// Decoding an encoded error gives its prefix and message back and leaves
/// what followed it, when the prefix holds no space.
pub proof fn law_error_roundtrip(prefix: Seq<char>, message: Seq<char>, rest: Seq<char>)
    requires
        no_cr(prefix),
        no_cr(message),
        forall|i: int| 0 <= i < prefix.len() ==> prefix[i] != ' ',
    ensures
        crlf_split_safe(error_encoding(prefix, message).drop_first() + rest),
        error_decode(error_encoding(prefix, message).drop_first() + rest) == (
            Ok::<(Seq<char>, Seq<char>), (Seq<char>, Seq<char>)>((prefix, message)),
            rest,
        ),
{
    let line = prefix + seq![' '] + message;
    assert(error_encoding(prefix, message).drop_first() + rest =~= line + crlf() + rest);
    assert forall|i: int| 0 <= i < line.len() implies line[i] != '\r' by {
        if i < prefix.len() {
            assert(line[i] == prefix[i]);
        } else if i > prefix.len() {
            assert(line[i] == message[i - prefix.len() - 1]);
        }
    }
    lemma_crlf_split_line(line, rest);
    assert forall|j: int| 0 <= j < prefix.len() implies line[j] != ' ' by {
        assert(line[j] == prefix[j]);
    }
    lemma_first_index_unique(line, ' ', prefix.len() as int);
    assert(line.take(prefix.len() as int) =~= prefix);
    assert(line.skip(prefix.len() as int + 1) =~= message);
}

/// Decoding an encoded bulk string gives the text back and leaves what
/// followed it.
pub proof fn law_bulk_string_roundtrip(t: Seq<char>, rest: Seq<char>)
    requires
        storable_text(t),
    ensures
        bulk_decodable(bulk_encoding(t).drop_first() + rest),
        bulk_decode(bulk_encoding(t).drop_first() + rest) == (
            Ok::<Seq<char>, (Seq<char>, Seq<char>)>(t),
            rest,
        ),
{
    if t == nil_text() {
        let size_text = int_to_decimal(-1);
        assert(nat_to_decimal(1) =~= seq!['1']);
        assert(bulk_encoding(t).drop_first() + rest =~= size_text + crlf() + rest);
        lemma_decimal_no_cr(-1);
        lemma_crlf_split_line(size_text, rest);
        lemma_parse_isize_of_decimal(-1);
    } else {
        let size_text = nat_to_decimal(byte_count(t));
        assert(size_text == int_to_decimal(byte_count(t) as int));
        assert(bulk_encoding(t).drop_first() + rest =~= size_text + crlf() + (t + crlf() + rest));
        lemma_decimal_no_cr(byte_count(t) as int);
        lemma_crlf_split_line(size_text, t + crlf() + rest);
        lemma_parse_isize_of_decimal(byte_count(t) as int);
        lemma_crlf_split_line(t, rest);
    }
}

/// The bulk strings of a nonempty sequence: the first one, then the others.
pub proof fn lemma_bulks_encoding_front(v: Seq<Seq<char>>)
    requires
        v.len() > 0,
    ensures
        bulks_encoding(v) == bulk_encoding(v[0]) + bulks_encoding(v.drop_first()),
    decreases v.len(),
{
    if v.len() == 1 {
        assert(v.drop_last() =~= Seq::<Seq<char>>::empty());
        assert(v.drop_first() =~= Seq::<Seq<char>>::empty());
        assert(bulks_encoding(v) =~= bulk_encoding(v[0]) + bulks_encoding(v.drop_first()));
    } else {
        lemma_bulks_encoding_front(v.drop_last());
        assert(v.drop_last().drop_first() =~= v.drop_first().drop_last());
        assert(v.drop_first().last() == v.last());
        assert(bulks_encoding(v) =~= bulk_encoding(v[0]) + bulks_encoding(v.drop_first()));
    }
}

/// Decoding the bulk strings of `v` in turn gives `v` back.
#[verifier::rlimit(50)]
pub proof fn lemma_bulks_roundtrip(v: Seq<Seq<char>>, rest: Seq<char>)
    requires
        forall|i: int| 0 <= i < v.len() ==> storable_text(#[trigger] v[i]),
    ensures
        bulks_decodable(v.len(), bulks_encoding(v) + rest),
        bulks_decode(v.len(), bulks_encoding(v) + rest) == (
            Ok::<Seq<Seq<char>>, (Seq<char>, Seq<char>)>(v),
            rest,
        ),
    decreases v.len(),
{
    if v.len() == 0 {
        assert(bulks_encoding(v) + rest =~= rest);
        assert(v =~= Seq::<Seq<char>>::empty());
    } else {
        lemma_bulks_encoding_front(v);
        let others = bulks_encoding(v.drop_first()) + rest;
        let s = bulks_encoding(v) + rest;
        assert(s =~= bulk_encoding(v[0]) + others);
        assert(bulk_encoding(v[0])[0] == '$');
        assert(s[0] == '$');
        assert(s.drop_first() =~= bulk_encoding(v[0]).drop_first() + others);
        law_bulk_string_roundtrip(v[0], others);
        assert(element_decodable(s));
        assert(element_decode(s) == (Ok::<Seq<char>, (Seq<char>, Seq<char>)>(v[0]), others));
        lemma_bulks_roundtrip(v.drop_first(), rest);
        assert(seq![v[0]] + v.drop_first() =~= v);
    }
}

/// Decoding an encoded nonempty array gives its elements back and leaves
/// what followed it.
pub proof fn law_array_roundtrip(v: Seq<Seq<char>>, rest: Seq<char>)
    requires
        0 < v.len() <= isize::MAX,
        forall|i: int| 0 <= i < v.len() ==> storable_text(#[trigger] v[i]),
    ensures
        array_decodable(array_encoding(v).drop_first() + rest),
        array_decode(array_encoding(v).drop_first() + rest) == (
            Ok::<Seq<Seq<char>>, (Seq<char>, Seq<char>)>(v),
            rest,
        ),
{
    let size_text = nat_to_decimal(v.len());
    assert(size_text == int_to_decimal(v.len() as int));
    assert(array_encoding(v).drop_first() + rest =~= size_text + crlf() + (bulks_encoding(v) + rest));
    lemma_decimal_no_cr(v.len() as int);
    lemma_crlf_split_line(size_text, bulks_encoding(v) + rest);
    lemma_parse_isize_of_decimal(v.len() as int);
    lemma_bulks_roundtrip(v, rest);
}


/// A value of the RESP protocol together with what it carries.
#[derive(Debug)]
pub enum NativeTypes {
    SimpleString(String),
    Integer(isize),
    BulkString(usize, String),
    Error(String, String),
}

/// What a `NativeTypes` value carries.
pub enum NativeView {
    SimpleString(Seq<char>),
    Integer(int),
    BulkString(nat, Seq<char>),
    Error(Seq<char>, Seq<char>),
}

impl View for NativeTypes {
    type V = NativeView;

    open spec fn view(&self) -> NativeView {
        match self {
            NativeTypes::SimpleString(t) => NativeView::SimpleString(t@),
            NativeTypes::Integer(n) => NativeView::Integer(*n as int),
            NativeTypes::BulkString(size, b) => NativeView::BulkString(*size as nat, b@),
            NativeTypes::Error(p, m) => NativeView::Error(p@, m@),
        }
    }
}

/// A parse error as a value, with nothing left to read.
pub open spec fn native_failure(message: Seq<char>) -> (NativeView, Seq<char>) {
    (NativeView::Error("ERR_PARSE"@, message), Seq::empty())
}

pub open spec fn native_simple_string_from(s: Seq<char>) -> (NativeView, Seq<char>) {
    match crlf_split(s).0 {
        Some(t) => (NativeView::SimpleString(t), crlf_split(s).1),
        None => native_failure("Failed to parse redis simple string"@),
    }
}

pub open spec fn native_integer_from(s: Seq<char>) -> (NativeView, Seq<char>) {
    match crlf_split(s).0 {
        Some(t) => match parse_isize_spec(t) {
            Some(n) => (NativeView::Integer(n), crlf_split(s).1),
            None => native_failure("Failed to parse redis integer"@),
        },
        None => native_failure("Failed to parse redis integer"@),
    }
}

pub open spec fn native_bulk_string_from(s: Seq<char>) -> (NativeView, Seq<char>) {
    match crlf_split(s).0 {
        None => native_failure("Failed to parse redis bulk string"@),
        Some(size_text) => match parse_usize_spec(size_text) {
            None => native_failure("Failed to parse redis bulk string"@),
            Some(size) => {
                let rest = crlf_split(s).1;
                match crlf_split(rest).0 {
                    None => native_failure("Failed to parse redis bulk string"@),
                    Some(b) => if byte_count(b) == size {
                        (NativeView::BulkString(size, b), crlf_split(rest).1)
                    } else {
                        native_failure("Failed to parse redis bulk string"@)
                    },
                }
            },
        },
    }
}

pub open spec fn native_bulk_string_decodable(s: Seq<char>) -> bool {
    &&& crlf_split_safe(s)
    &&& match crlf_split(s).0 {
        Some(size_text) => parse_usize_spec(size_text) is Some ==> crlf_split_safe(crlf_split(s).1),
        None => true,
    }
}

pub open spec fn native_error_from(s: Seq<char>) -> (NativeView, Seq<char>) {
    match crlf_split(s).0 {
        Some(t) => match first_index(t, ' ') {
            Some(k) => (NativeView::Error(t.take(k), t.skip(k + 1)), crlf_split(s).1),
            None => native_failure("Failed to parse redis error"@),
        },
        None => native_failure("Failed to parse redis error"@),
    }
}

/// What reading a value from `s` gives, and what is left of `s`.
pub open spec fn native_new(s: Seq<char>) -> (NativeView, Seq<char>) {
    let body = s.drop_first();
    if s[0] == '+' {
        native_simple_string_from(body)
    } else if s[0] == ':' {
        native_integer_from(body)
    } else if s[0] == '$' {
        native_bulk_string_from(body)
    } else if s[0] == '-' {
        native_error_from(body)
    } else {
        (
            NativeView::Error(
                "ERR_UNKNOWN_TYPE"@,
                "Failed to match the first byte. Unknown Redis type"@,
            ),
            Seq::empty(),
        )
    }
}

/// The inputs that `NativeTypes::new` reads to completion.
pub open spec fn native_decodable(s: Seq<char>) -> bool {
    &&& s.len() > 0
    &&& (s[0] == '+' || s[0] == ':' || s[0] == '-') ==> crlf_split_safe(s.drop_first())
    &&& s[0] == '$' ==> native_bulk_string_decodable(s.drop_first())
}

/// How a value is written on the wire.
pub open spec fn native_encoding(v: NativeView) -> Seq<char> {
    match v {
        NativeView::SimpleString(t) => simple_string_encoding(t),
        NativeView::Integer(n) => integer_encoding(n),
        NativeView::BulkString(size, b) => seq!['$'] + nat_to_decimal(size) + crlf() + b + crlf(),
        NativeView::Error(p, m) => error_encoding(p, m),
    }
}

/// The text that a value carries.
pub open spec fn native_text(v: NativeView) -> Seq<char> {
    match v {
        NativeView::SimpleString(t) => t,
        NativeView::Integer(n) => int_to_decimal(n),
        NativeView::BulkString(_, b) => b,
        NativeView::Error(p, m) => p + seq![' '] + m,
    }
}

/// The values that their encoding describes exactly.
pub open spec fn native_well_formed(v: NativeView) -> bool {
    match v {
        NativeView::SimpleString(t) => no_cr(t),
        NativeView::Integer(n) => isize::MIN <= n <= isize::MAX,
        NativeView::BulkString(size, b) => size == byte_count(b) && no_cr(b),
        NativeView::Error(p, m) => no_cr(p) && no_cr(m) && forall|i: int|
            0 <= i < p.len() ==> p[i] != ' ',
    }
}

pub open spec fn native_pair(r: (NativeTypes, String)) -> (NativeView, Seq<char>) {
    (r.0@, r.1@)
}

impl NativeTypes {
    /// Reads one value from the start of `redis_string`; returns it and what
    /// follows it. A text that cannot be read gives an `Error` value.
    pub fn new(redis_string: String) -> (r: (Self, String))
        requires
            native_decodable(redis_string@),
        ensures
            native_pair(r) == native_new(redis_string@),
    {
        let (first, body) = split_first_char(redis_string.as_str());
        if first == '+' {
            Self::new_simple_string_from(body)
        } else if first == ':' {
            Self::new_integer_from(body)
        } else if first == '$' {
            Self::new_bulk_string_from(body)
        } else if first == '-' {
            Self::new_error_from(body)
        } else {
            (
                NativeTypes::Error(
                    string_of("ERR_UNKNOWN_TYPE"),
                    string_of("Failed to match the first byte. Unknown Redis type"),
                ),
                String::new(),
            )
        }
    }

    fn parse_error_value(message: &str) -> (r: (Self, String))
        ensures
            native_pair(r) == native_failure(message@),
    {
        (NativeTypes::Error(string_of("ERR_PARSE"), string_of(message)), String::new())
    }

    fn new_simple_string_from(string: String) -> (r: (Self, String))
        requires
            crlf_split_safe(string@),
        ensures
            native_pair(r) == native_simple_string_from(string@),
    {
        if let Some((sliced_s_string, rest_of)) = NativeTypes::remove_first_cr_lf(string) {
            (Self::SimpleString(sliced_s_string), rest_of)
        } else {
            Self::parse_error_value("Failed to parse redis simple string")
        }
    }

    fn new_integer_from(value: String) -> (r: (Self, String))
        requires
            crlf_split_safe(value@),
        ensures
            native_pair(r) == native_integer_from(value@),
    {
        if let Some((sliced_value, rest_of)) = NativeTypes::remove_first_cr_lf(value) {
            if let Some(integer) = parse_isize(sliced_value.as_str()) {
                (Self::Integer(integer), rest_of)
            } else {
                Self::parse_error_value("Failed to parse redis integer")
            }
        } else {
            Self::parse_error_value("Failed to parse redis integer")
        }
    }

    fn new_bulk_string_from(bulk: String) -> (r: (Self, String))
        requires
            native_bulk_string_decodable(bulk@),
        ensures
            native_pair(r) == native_bulk_string_from(bulk@),
    {
        let (sliced_size, rest_of) = match NativeTypes::remove_first_cr_lf(bulk) {
            Some(pair) => pair,
            None => {
                return Self::parse_error_value("Failed to parse redis bulk string");
            },
        };
        let size = match parse_usize(sliced_size.as_str()) {
            Some(size) => size,
            None => {
                return Self::parse_error_value("Failed to parse redis bulk string");
            },
        };
        let (sliced_b_string, rest_of2) = match NativeTypes::remove_first_cr_lf(rest_of) {
            Some(pair) => pair,
            None => {
                return Self::parse_error_value("Failed to parse redis bulk string");
            },
        };
        if byte_len(&sliced_b_string) == size {
            (Self::BulkString(size, sliced_b_string), rest_of2)
        } else {
            Self::parse_error_value("Failed to parse redis bulk string")
        }
    }

    /// Cuts `slice` at its first `\r\n` into the text before it and the
    /// text after it.
    fn remove_first_cr_lf(slice: String) -> (r: Option<(String, String)>)
        requires
            crlf_split_safe(slice@),
        ensures
            match r {
                Some((head, rest)) => crlf_split(slice@) == (Some(head@), rest@),
                None => crlf_split(slice@).0 is None,
            },
    {
        let (head, rest) = split_first_crlf(slice.as_str());
        match head {
            Some(h) => Some((h, rest)),
            None => None,
        }
    }

    fn new_error_from(error: String) -> (r: (Self, String))
        requires
            crlf_split_safe(error@),
        ensures
            native_pair(r) == native_error_from(error@),
    {
        if let Some((sliced_error, rest_of)) = NativeTypes::remove_first_cr_lf(error) {
            let v = to_chars(sliced_error.as_str());
            if let Some(middle_space) = find_char(&v, ' ') {
                let prefix = string_from_range(&v, 0, middle_space);
                let err_message = string_from_range(&v, middle_space + 1, v.len());
                assert(v@.subrange(0, middle_space as int) =~= sliced_error@.take(middle_space as int));
                assert(v@.subrange(middle_space + 1, v@.len() as int) =~= sliced_error@.skip(
                    middle_space + 1,
                ));
                (Self::Error(prefix, err_message), rest_of)
            } else {
                Self::parse_error_value("Failed to parse redis error")
            }
        } else {
            Self::parse_error_value("Failed to parse redis error")
        }
    }

    pub fn new_simple_string(str: &str) -> (r: Self)
        ensures
            r@ == NativeView::SimpleString(str@),
    {
        Self::SimpleString(string_of(str))
    }

    /// The integer that `str` denotes; `str` must be a valid `isize`.
    pub fn new_integer(str: &str) -> (r: Self)
        requires
            parse_isize_spec(str@) is Some,
        ensures
            r@ == NativeView::Integer(parse_isize_spec(str@)->Some_0),
    {
        match parse_isize(str) {
            Some(n) => Self::Integer(n),
            None => Self::Integer(0),
        }
    }

    /// A bulk string carrying `str`, with its size in bytes.
    pub fn new_bulk_string(str: &str) -> (r: Self)
        ensures
            r@ == NativeView::BulkString(byte_count(str@), str@),
    {
        let string = string_of(str);
        let size = byte_len(&string);
        Self::BulkString(size, string)
    }

    /// The error written as `str`: its prefix before the first space and
    /// its message after it; `str` must hold a space.
    pub fn new_error(str: &str) -> (r: Self)
        requires
            first_index(str@, ' ') is Some,
        ensures
            r@ == NativeView::Error(
                str@.take(first_index(str@, ' ')->Some_0),
                str@.skip(first_index(str@, ' ')->Some_0 + 1),
            ),
    {
        let v = to_chars(str);
        match find_char(&v, ' ') {
            Some(middle_point) => {
                let prefix = string_from_range(&v, 0, middle_point);
                let err_message = string_from_range(&v, middle_point + 1, v.len());
                assert(v@.subrange(0, middle_point as int) =~= str@.take(middle_point as int));
                assert(v@.subrange(middle_point + 1, v@.len() as int) =~= str@.skip(
                    middle_point + 1,
                ));
                Self::Error(prefix, err_message)
            },
            None => Self::Error(String::new(), String::new()),
        }
    }

    /// The value written on the wire.
    pub fn encode(&self) -> (r: Option<String>)
        ensures
            r matches Some(e) && e@ == native_encoding(self@),
    {
        match self {
            Self::SimpleString(text) => Some(NativeTypes::encode_simple_string(text)),
            Self::Integer(num) => Some(NativeTypes::encode_integer(*num)),
            Self::BulkString(size, bulk) => Some(NativeTypes::encode_bulk_string(*size, bulk)),
            Self::Error(prefix, message) => Some(NativeTypes::encode_error(prefix, message)),
        }
    }

    fn encode_simple_string(text: &String) -> (r: String)
        ensures
            r@ == simple_string_encoding(text@),
    {
        let mut encoded = string_of("+");
        proof {
            reveal_strlit("+");
        }
        push_text(&mut encoded, text.as_str());
        push_crlf(&mut encoded);
        encoded
    }

    fn encode_integer(num: isize) -> (r: String)
        ensures
            r@ == integer_encoding(num as int),
    {
        let mut encoded = string_of(":");
        proof {
            reveal_strlit(":");
        }
        push_isize(&mut encoded, num);
        push_crlf(&mut encoded);
        encoded
    }

    fn encode_bulk_string(size: usize, bulk: &String) -> (r: String)
        ensures
            r@ == seq!['$'] + nat_to_decimal(size as nat) + crlf() + bulk@ + crlf(),
    {
        let mut encoded = string_of("$");
        proof {
            reveal_strlit("$");
        }
        push_u64(&mut encoded, size as u64);
        push_crlf(&mut encoded);
        push_text(&mut encoded, bulk.as_str());
        push_crlf(&mut encoded);
        encoded
    }

    fn encode_error(err_prefix: &String, err_message: &String) -> (r: String)
        ensures
            r@ == error_encoding(err_prefix@, err_message@),
    {
        let mut encoded = string_of("-");
        proof {
            reveal_strlit("-");
        }
        push_text(&mut encoded, err_prefix.as_str());
        push_char(&mut encoded, ' ');
        push_text(&mut encoded, err_message.as_str());
        push_crlf(&mut encoded);
        encoded
    }

    /// The text that the value carries.
    pub fn get(&self) -> (r: Option<String>)
        ensures
            r matches Some(t) && t@ == native_text(self@),
    {
        match self {
            Self::SimpleString(text) => Some(string_of(text.as_str())),
            Self::Integer(num) => {
                let mut t = String::new();
                push_isize(&mut t, *num);
                assert(t@ =~= int_to_decimal(*num as int));
                Some(t)
            },
            Self::BulkString(_, bulk) => Some(string_of(bulk.as_str())),
            Self::Error(prefix, message) => Some(
                NativeTypes::error_to_string(string_of(prefix.as_str()), message),
            ),
        }
    }

    fn error_to_string(prefix: String, message: &String) -> (r: String)
        ensures
            r@ == prefix@ + seq![' '] + message@,
    {
        let mut prefix = prefix;
        push_char(&mut prefix, ' ');
        push_text(&mut prefix, message.as_str());
        prefix
    }
}

/// Reading the encoding of a well-formed value gives the value back and
/// leaves what followed it.
pub proof fn law_native_roundtrip(v: NativeView, rest: Seq<char>)
    requires
        native_well_formed(v),
    ensures
        native_decodable(native_encoding(v) + rest),
        native_new(native_encoding(v) + rest) == (v, rest),
{
    let s = native_encoding(v) + rest;
    match v {
        NativeView::SimpleString(t) => {
            assert(s.drop_first() =~= simple_string_encoding(t).drop_first() + rest);
            law_simple_string_roundtrip(t, rest);
        },
        NativeView::Integer(n) => {
            assert(s.drop_first() =~= integer_encoding(n).drop_first() + rest);
            law_integer_roundtrip(n, rest);
        },
        NativeView::BulkString(size, b) => {
            let size_text = nat_to_decimal(size);
            assert(s.drop_first() =~= size_text + crlf() + (b + crlf() + rest));
            lemma_decimal_no_cr(size as int);
            assert(size_text == int_to_decimal(size as int));
            lemma_crlf_split_line(size_text, b + crlf() + rest);
            lemma_parse_usize_of_decimal(size);
            lemma_crlf_split_line(b, rest);
        },
        NativeView::Error(p, m) => {
            assert(s.drop_first() =~= error_encoding(p, m).drop_first() + rest);
            law_error_roundtrip(p, m, rest);
        },
    }
}

} // verus!
