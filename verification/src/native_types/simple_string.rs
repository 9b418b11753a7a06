//! RESP simple strings: `+<text>\r\n`.
use vstd::prelude::*;

use super::error::ErrorStruct;
use super::redis_type::{
    parse_error, parse_failure, remove_first_cr_lf, simple_string_encoding, text_result,
    RedisType,
};
use crate::text::{crlf_split, crlf_split_safe, push_crlf, push_text, string_of};

verus! {

/// Redis native type: Simple String.
pub struct RSimpleString;

/// What decoding a simple string (after its `+`) gives, and what is left.
pub open spec fn simple_string_decode(s: Seq<char>) -> (Result<Seq<char>, (Seq<char>, Seq<char>)>, Seq<char>) {
    match crlf_split(s).0 {
        Some(t) => (Ok(t), crlf_split(s).1),
        None => (Err(parse_error("Failed to parse redis simple string"@)), crlf_split(s).1),
    }
}

impl RedisType<String> for RSimpleString {
    open spec fn decodable(s: Seq<char>) -> bool {
        crlf_split_safe(s)
    }

    fn encode(text: String) -> (r: String)
        ensures
            r@ == simple_string_encoding(text@),
    {
        let mut encoded = string_of("+");
        proof {
            reveal_strlit("+");
        }
        push_text(&mut encoded, text.as_str());
        push_crlf(&mut encoded);
        encoded
    }

    fn decode(redis_encoded_line: &mut String) -> (r: Result<String, ErrorStruct>)
        ensures
            simple_string_decode(old(redis_encoded_line)@) == (text_result(r), final(redis_encoded_line)@),
    {
        match remove_first_cr_lf(redis_encoded_line) {
            Some(text) => Ok(text),
            None => Err(parse_failure("Failed to parse redis simple string")),
        }
    }
}

} // verus!
