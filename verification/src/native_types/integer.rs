//! RESP integers: `:<number>\r\n`.
use vstd::prelude::*;

use super::error::ErrorStruct;
use super::redis_type::{
    error_view, integer_encoding, parse_error, parse_failure, remove_first_cr_lf, RedisType,
};
use crate::text::{crlf_split, crlf_split_safe, parse_isize, parse_isize_spec, push_crlf, push_isize, string_of};

verus! {

/// Redis native type: Integer.
pub struct RInteger;

pub open spec fn integer_error() -> (Seq<char>, Seq<char>) {
    parse_error("Failed to parse redis integer"@)
}

/// What decoding an integer (after its `:`) gives, and what is left.
pub open spec fn integer_decode(s: Seq<char>) -> (Result<int, (Seq<char>, Seq<char>)>, Seq<char>) {
    match crlf_split(s).0 {
        Some(t) => match parse_isize_spec(t) {
            Some(n) => (Ok(n), crlf_split(s).1),
            None => (Err(integer_error()), crlf_split(s).1),
        },
        None => (Err(integer_error()), crlf_split(s).1),
    }
}

pub open spec fn integer_result(r: Result<isize, ErrorStruct>) -> Result<int, (Seq<char>, Seq<char>)> {
    match r {
        Ok(n) => Ok(n as int),
        Err(e) => Err(error_view(e)),
    }
}

impl RedisType<isize> for RInteger {
    open spec fn decodable(s: Seq<char>) -> bool {
        crlf_split_safe(s)
    }

    fn encode(num: isize) -> (r: String)
        ensures
            r@ == integer_encoding(num as int),
    {
        let mut encoded = string_of(":");
        proof {
            reveal_strlit(":");
        }
        push_isize(&mut encoded, num);
        push_crlf(&mut encoded);
        encoded
    }

    fn decode(redis_encoded_line: &mut String) -> (r: Result<isize, ErrorStruct>)
        ensures
            integer_decode(old(redis_encoded_line)@) == (integer_result(r), final(redis_encoded_line)@),
    {
        match remove_first_cr_lf(redis_encoded_line) {
            Some(text) => match parse_isize(text.as_str()) {
                Some(n) => Ok(n),
                None => Err(parse_failure("Failed to parse redis integer")),
            },
            None => Err(parse_failure("Failed to parse redis integer")),
        }
    }
}

} // verus!
