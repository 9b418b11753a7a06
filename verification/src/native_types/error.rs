//! The error of the server and its RESP encoding.
use vstd::prelude::*;

use super::redis_type::{error_encoding, error_view, parse_error, remove_first_cr_lf, RedisType};
use crate::messages::MessageRedis;
use crate::text::{
    crlf_split, crlf_split_safe, find_char, first_index, push_char, push_crlf, push_text,
    string_from_range, string_of, to_chars,
};

verus! {

/// An error to send to a client: a prefix such as `ERR` and a message.
#[derive(Debug, Clone)]
pub struct ErrorStruct {
    pub prefix: String,
    pub message: String,
}

/// The prefix, a space, then the message.
pub open spec fn printed(prefix: Seq<char>, message: Seq<char>) -> Seq<char> {
    prefix + seq![' '] + message
}

impl ErrorStruct {
    pub fn new(prefix: String, message: String) -> (e: Self)
        ensures
            e.prefix == prefix,
            e.message == message,
    {
        ErrorStruct { prefix, message }
    }

    /// The error built from a message of the server.
    pub fn from(message: MessageRedis) -> (e: Self)
        ensures
            e.prefix == message.prefix,
            e.message == message.message,
    {
        ErrorStruct { prefix: message.prefix, message: message.message }
    }

    /// The prefix, a space, then the message.
    pub fn print_it(&self) -> (r: String)
        ensures
            r@ == printed(self.prefix@, self.message@),
    {
        let mut printed = string_of(self.prefix.as_str());
        push_char(&mut printed, ' ');
        push_text(&mut printed, self.message.as_str());
        printed
    }

    /// This error encoded as a RESP error.
    pub fn get_encoded_message_complete(&self) -> (r: String)
        ensures
            r@ == error_encoding(self.prefix@, self.message@),
    {
        RError::encode(self.duplicate())
    }

    /// A copy of this error.
    pub fn duplicate(&self) -> (e: Self)
        ensures
            e.prefix@ == self.prefix@,
            e.message@ == self.message@,
    {
        ErrorStruct { prefix: string_of(self.prefix.as_str()), message: string_of(self.message.as_str()) }
    }
}

/// Redis native type: Error.
pub struct RError;

/// What splitting an error line at its first space gives: the prefix before
/// it and the message after it.
pub open spec fn error_line_decode(t: Seq<char>) -> Result<(Seq<char>, Seq<char>), (Seq<char>, Seq<char>)> {
    match first_index(t, ' ') {
        Some(k) => Ok((t.take(k), t.skip(k + 1))),
        None => Err(parse_error("Failed to parse redis error"@)),
    }
}

/// What decoding an error (after its `-`) gives, and what is left.
pub open spec fn error_decode(s: Seq<char>) -> (Result<(Seq<char>, Seq<char>), (Seq<char>, Seq<char>)>, Seq<char>) {
    match crlf_split(s).0 {
        Some(t) => (error_line_decode(t), crlf_split(s).1),
        None => (Err(parse_error("Failed to parse redis error"@)), crlf_split(s).1),
    }
}

pub open spec fn error_result(r: Result<ErrorStruct, ErrorStruct>) -> Result<(Seq<char>, Seq<char>), (Seq<char>, Seq<char>)> {
    match r {
        Ok(e) => Ok(error_view(e)),
        Err(e) => Err(error_view(e)),
    }
}

/// Splits an error line at its first space.
fn split_error_line(line: &String) -> (r: Result<ErrorStruct, ErrorStruct>)
    ensures
        error_result(r) == error_line_decode(line@),
{
    let v = to_chars(line.as_str());
    match find_char(&v, ' ') {
        Some(k) => {
            let prefix = string_from_range(&v, 0, k);
            let message = string_from_range(&v, k + 1, v.len());
            assert(v@.subrange(0, k as int) =~= line@.take(k as int));
            assert(v@.subrange(k + 1, v@.len() as int) =~= line@.skip(k + 1));
            Ok(ErrorStruct { prefix, message })
        },
        None => Err(ErrorStruct::new(string_of("ERR_PARSE"), string_of("Failed to parse redis error"))),
    }
}

impl RedisType<ErrorStruct> for RError {
    open spec fn decodable(s: Seq<char>) -> bool {
        crlf_split_safe(s)
    }

    fn encode(err: ErrorStruct) -> (r: String)
        ensures
            r@ == error_encoding(err.prefix@, err.message@),
    {
        let mut encoded = string_of("-");
        proof {
            reveal_strlit("-");
        }
        push_text(&mut encoded, err.prefix.as_str());
        push_char(&mut encoded, ' ');
        push_text(&mut encoded, err.message.as_str());
        push_crlf(&mut encoded);
        encoded
    }

    fn decode(redis_encoded_line: &mut String) -> (r: Result<ErrorStruct, ErrorStruct>)
        ensures
            error_decode(old(redis_encoded_line)@) == (error_result(r), final(redis_encoded_line)@),
    {
        match remove_first_cr_lf(redis_encoded_line) {
            Some(line) => split_error_line(&line),
            None => Err(ErrorStruct::new(string_of("ERR_PARSE"), string_of("Failed to parse redis error"))),
        }
    }
}

} // verus!
