//! CONFIG SET: changes a setting of the server.
use vstd::prelude::*;

use super::config_set_db_file_name::{set_dbfilename_outcome, ConfigSetDbFileName};
use super::config_set_log_fle::{set_logfile_outcome, ConfigSetLogFile};
use super::config_set_verbose::{set_verbose_outcome, ConfigSetVerbose};
use crate::commands::{check_empty, wrong_args};
use crate::native_types::redis_type::text_result;
use crate::native_types::ErrorStruct;
use crate::server_redis_attributes::ServerRedisAttributes;
use crate::text::{same_text, string_of};

verus! {

pub struct ConfigSet;

/// What CONFIG SET with the arguments `args` does to the server `before`,
/// and what it replies: the first argument names the setting, the others go
/// to the command that changes it.
pub open spec fn config_set_outcome(
    args: Seq<Seq<char>>,
    before: ServerRedisAttributes,
    after: ServerRedisAttributes,
    reply: Result<Seq<char>, (Seq<char>, Seq<char>)>,
) -> bool {
    if args.len() == 0 {
        after == before && reply == Err::<Seq<char>, (Seq<char>, Seq<char>)>(wrong_args("config set"@))
    } else if args[0] == "logfile"@ {
        set_logfile_outcome(args.skip(1), before, after, reply)
    } else if args[0] == "dbfilename"@ {
        set_dbfilename_outcome(args.skip(1), before, after, reply)
    } else if args[0] == "verbose"@ {
        set_verbose_outcome(args.skip(1), before, after, reply)
    } else {
        after == before && reply == Err::<Seq<char>, (Seq<char>, Seq<char>)>(
            ("ERR"@, "Unknown subcommand or wrong number of arguments for 'set'."@),
        )
    }
}

impl ConfigSet {
    /// Changes the setting that the first argument names: logfile,
    /// dbfilename or verbose.
    pub fn run(&self, buffer: Vec<String>, server: &mut ServerRedisAttributes) -> (r: Result<String, ErrorStruct>)
        ensures
            config_set_outcome(buffer@.map_values(|s: String| s@), *old(server), *final(server), text_result(r)),
    {
        let ghost args = buffer@.map_values(|s: String| s@);
        check_empty(&buffer, "config set")?;
        let mut buffer = buffer;
        let item = buffer.remove(0);
        assert(buffer@.map_values(|s: String| s@) =~= args.skip(1));
        if same_text(item.as_str(), "logfile") {
            ConfigSetLogFile.run(buffer, server)
        } else if same_text(item.as_str(), "dbfilename") {
            ConfigSetDbFileName.run(buffer, server)
        } else if same_text(item.as_str(), "verbose") {
            ConfigSetVerbose.run(buffer, server)
        } else {
            Err(ErrorStruct::new(
                string_of("ERR"),
                string_of("Unknown subcommand or wrong number of arguments for 'set'."),
            ))
        }
    }
}

} // verus!
