//! CONFIG SET LOGFILE: renames the log file.
use vstd::prelude::*;

use crate::commands::{check_empty, wrong_args};
use crate::messages::redis_messages;
use crate::native_types::redis_type::{simple_string_encoding, text_result};
use crate::native_types::{ErrorStruct, RSimpleString, RedisType};
use crate::server_redis_attributes::ServerRedisAttributes;
use crate::text::string_of;

verus! {

pub struct ConfigSetLogFile;

/// What CONFIG SET LOGFILE with the arguments `args` does to the server
/// `before`, and what it replies.
pub open spec fn set_logfile_outcome(
    args: Seq<Seq<char>>,
    before: ServerRedisAttributes,
    after: ServerRedisAttributes,
    reply: Result<Seq<char>, (Seq<char>, Seq<char>)>,
) -> bool {
    if args.len() == 0 {
        after == before && reply == Err::<Seq<char>, (Seq<char>, Seq<char>)>(wrong_args("config set logfile"@))
    } else {
        after == (ServerRedisAttributes { logfile_name: after.logfile_name, ..before }) && after.logfile_name@
            == args[0] && reply == Ok::<Seq<char>, (Seq<char>, Seq<char>)>(simple_string_encoding("OK"@))
    }
}

impl ConfigSetLogFile {
    /// Changes the name of the log file to the first argument.
    pub fn run(&self, buffer: Vec<String>, server: &mut ServerRedisAttributes) -> (r: Result<String, ErrorStruct>)
        ensures
            set_logfile_outcome(buffer@.map_values(|s: String| s@), *old(server), *final(server), text_result(r)),
    {
        check_empty(&buffer, "config set logfile")?;
        let new_file_name = string_of(buffer[0].as_str());
        server.change_logfilename(new_file_name);
        Ok(RSimpleString::encode(redis_messages::ok()))
    }
}

} // verus!
