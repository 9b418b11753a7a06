//! RESP bulk strings: `$<size>\r\n<text>\r\n`.
use vstd::prelude::*;

use super::error::ErrorStruct;
use super::redis_type::{
    bulk_decodable, bulk_decode, bulk_encoding, nil_text, parse_failure, remove_first_cr_lf,
    text_result, verify_parsable_bulk_size, RedisType,
};
use crate::messages::redis_messages;
use crate::text::{byte_len, crlf, push_crlf, push_text, push_u64, string_of};

verus! {

/// Redis native type: Bulk String.
pub struct RBulkString;

impl RedisType<String> for RBulkString {
    open spec fn decodable(s: Seq<char>) -> bool {
        bulk_decodable(s)
    }

    fn encode(text: String) -> (r: String)
        ensures
            r@ == bulk_encoding(text@),
    {
        let nil = redis_messages::nil();
        proof {
            reveal_strlit("(nil)");
        }
        assert(nil@ =~= nil_text());
        if text == nil {
            assert(text@ =~= nil_text());
            let r = string_of("$-1\r\n");
            proof {
                reveal_strlit("$-1\r\n");
            }
            assert(r@ =~= seq!['$', '-', '1'] + crlf());
            r
        } else {
            assert(text@ != nil_text());
            let mut encoded = string_of("$");
            proof {
                reveal_strlit("$");
            }
            push_u64(&mut encoded, byte_len(&text) as u64);
            push_crlf(&mut encoded);
            push_text(&mut encoded, text.as_str());
            push_crlf(&mut encoded);
            encoded
        }
    }

    fn decode(bulk: &mut String) -> (r: Result<String, ErrorStruct>)
        ensures
            bulk_decode(old(bulk)@) == (text_result(r), final(bulk)@),
    {
        if let Some(sliced_size) = remove_first_cr_lf(bulk) {
            verify_parsable_bulk_size(sliced_size, bulk)
        } else {
            Err(parse_failure("Failed to parse redis simple string"))
        }
    }
}

} // verus!
