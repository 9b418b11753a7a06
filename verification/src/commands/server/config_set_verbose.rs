//! CONFIG SET VERBOSE: changes how much the server tells.
use vstd::prelude::*;

use crate::commands::{check_empty, wrong_args};
use crate::messages::redis_messages;
use crate::native_types::redis_type::{simple_string_encoding, text_result};
use crate::native_types::{ErrorStruct, RSimpleString, RedisType};
use crate::server_redis_attributes::ServerRedisAttributes;
use crate::text::{parse_usize, parse_usize_spec, string_of};

verus! {

pub struct ConfigSetVerbose;

/// The error of a verbose level that is not a number.
pub open spec fn invalid_verbose_error() -> (Seq<char>, Seq<char>) {
    ("ERR"@, "Invalid verbose level received."@)
}

/// What CONFIG SET VERBOSE with the arguments `args` does to the server
/// `before`, and what it replies.
pub open spec fn set_verbose_outcome(
    args: Seq<Seq<char>>,
    before: ServerRedisAttributes,
    after: ServerRedisAttributes,
    reply: Result<Seq<char>, (Seq<char>, Seq<char>)>,
) -> bool {
    if args.len() == 0 {
        after == before && reply == Err::<Seq<char>, (Seq<char>, Seq<char>)>(wrong_args("config set verbose"@))
    } else {
        match parse_usize_spec(args[0]) {
            Some(level) => after == (ServerRedisAttributes { verbose: level as usize, ..before }) && reply
                == Ok::<Seq<char>, (Seq<char>, Seq<char>)>(simple_string_encoding("OK"@)),
            None => after == before && reply == Err::<Seq<char>, (Seq<char>, Seq<char>)>(
                invalid_verbose_error(),
            ),
        }
    }
}

impl ConfigSetVerbose {
    /// Sets the verbose level to the first argument, a number.
    pub fn run(&self, buffer: Vec<String>, server: &mut ServerRedisAttributes) -> (r: Result<String, ErrorStruct>)
        ensures
            set_verbose_outcome(buffer@.map_values(|s: String| s@), *old(server), *final(server), text_result(r)),
    {
        check_empty(&buffer, "config set verbose")?;
        match parse_usize(buffer[0].as_str()) {
            Some(level) => {
                server.change_verbose(level);
                Ok(RSimpleString::encode(redis_messages::ok()))
            },
            None => Err(ErrorStruct::new(string_of("ERR"), string_of("Invalid verbose level received."))),
        }
    }
}

} // verus!
