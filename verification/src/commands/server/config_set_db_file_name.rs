//! CONFIG SET DBFILENAME: renames the file of the dump.
use vstd::prelude::*;

use crate::commands::{check_empty, wrong_args};
use crate::messages::redis_messages;
use crate::native_types::redis_type::{simple_string_encoding, text_result};
use crate::native_types::{ErrorStruct, RSimpleString, RedisType};
use crate::server_redis_attributes::ServerRedisAttributes;
use crate::text::string_of;

verus! {

pub struct ConfigSetDbFileName;

/// What CONFIG SET DBFILENAME with the arguments `args` does to the server
/// `before`, and what it replies.
pub open spec fn set_dbfilename_outcome(
    args: Seq<Seq<char>>,
    before: ServerRedisAttributes,
    after: ServerRedisAttributes,
    reply: Result<Seq<char>, (Seq<char>, Seq<char>)>,
) -> bool {
    if args.len() == 0 {
        after == before && reply == Err::<Seq<char>, (Seq<char>, Seq<char>)>(wrong_args("config set dbfile"@))
    } else {
        after == (ServerRedisAttributes { dbfile_name: after.dbfile_name, ..before }) && after.dbfile_name@
            == args[0] && reply == Ok::<Seq<char>, (Seq<char>, Seq<char>)>(simple_string_encoding("OK"@))
    }
}

impl ConfigSetDbFileName {
    /// Changes the name of the file of the dump to the first argument.
    pub fn run(&self, buffer: Vec<String>, server: &mut ServerRedisAttributes) -> (r: Result<String, ErrorStruct>)
        ensures
            set_dbfilename_outcome(buffer@.map_values(|s: String| s@), *old(server), *final(server), text_result(r)),
    {
        check_empty(&buffer, "config set dbfile")?;
        let new_file_name = string_of(buffer[0].as_str());
        server.change_dump_filename(new_file_name);
        Ok(RSimpleString::encode(redis_messages::ok()))
    }
}

} // verus!
