//! RESP arrays of bulk strings: `*<count>\r\n` then each element.
use vstd::prelude::*;

use super::bulk_string::RBulkString;
use super::error::ErrorStruct;
use super::redis_type::{
    array_decodable, array_decode, array_encoding, bulks_encoding, parse_failure,
    remove_first_cr_lf, strings_view, texts_result, verify_parsable_array_size, RedisType,
};
use crate::text::{crlf, push_crlf, push_text, push_u64, string_of};

verus! {

/// Redis native type: Array.
pub struct RArray;

/// Appends the bulk strings of `array`, in order.
pub fn push_bulks(encoded: &mut String, array: &Vec<String>)
    ensures
        final(encoded)@ == old(encoded)@ + bulks_encoding(strings_view(array@)),
{
    let ghost view = strings_view(array@);
    let mut i: usize = 0;
    while i < array.len()
        invariant
            i <= array.len(),
            view == strings_view(array@),
            encoded@ == old(encoded)@ + bulks_encoding(view.take(i as int)),
        decreases array.len() - i,
    {
        let elem = array[i].clone();
        let encoded_elem = RBulkString::encode(elem);
        push_text(encoded, encoded_elem.as_str());
        assert(view.take(i + 1).drop_last() =~= view.take(i as int));
        i = i + 1;
    }
    assert(view.take(array.len() as int) =~= view);
}

impl RedisType<Vec<String>> for RArray {
    open spec fn decodable(s: Seq<char>) -> bool {
        array_decodable(s)
    }

    fn encode(array: Vec<String>) -> (r: String)
        ensures
            r@ == array_encoding(strings_view(array@)),
    {
        if array.len() == 0 {
            let r = string_of("*0\r\n");
            proof {
                reveal_strlit("*0\r\n");
            }
            assert(r@ =~= seq!['*', '0'] + crlf());
            r
        } else {
            let mut encoded = string_of("*");
            proof {
                reveal_strlit("*");
            }
            push_u64(&mut encoded, array.len() as u64);
            push_crlf(&mut encoded);
            push_bulks(&mut encoded, &array);
            encoded
        }
    }

    fn decode(bulk_array: &mut String) -> (r: Result<Vec<String>, ErrorStruct>)
        ensures
            array_decode(old(bulk_array)@) == (texts_result(r), final(bulk_array)@),
    {
        if let Some(sliced_size) = remove_first_cr_lf(bulk_array) {
            verify_parsable_array_size(&sliced_size, bulk_array)
        } else {
            Err(parse_failure("Failed to parse redis simple string"))
        }
    }
}

} // verus!
