//! What goes to and comes from the files of the server: bulk strings.
use vstd::prelude::*;

use crate::native_types::redis_type::{bulk_decodable, bulk_decode, bulk_encoding, text_result};
use crate::native_types::{ErrorStruct, RBulkString, RedisType};
use crate::text::split_first_char;

verus! {

/// Reads and writes the text of the files as bulk strings.
pub struct FileManager;

impl FileManager {
    pub fn new() -> (f: Self) {
        FileManager {}
    }

    /// The text that the bulk string at the start of `encoded_text`, the
    /// content of a file, holds.
    pub fn read_line(self, encoded_text: String) -> (r: Result<String, ErrorStruct>)
        requires
            encoded_text@.len() > 0,
            bulk_decodable(encoded_text@.drop_first()),
        ensures
            text_result(r) == bulk_decode(encoded_text@.drop_first()).0,
    {
        let (_, mut first_lecture) = split_first_char(encoded_text.as_str());
        RBulkString::decode(&mut first_lecture)
    }

    /// What is written to a file for the line `text`: the bulk string of it.
    pub fn encode_line(&self, text: String) -> (r: String)
        ensures
            r@ == bulk_encoding(text@),
    {
        RBulkString::encode(text)
    }
}

impl Default for FileManager {
    fn default() -> (f: Self) {
        Self::new()
    }
}

} // verus!
