//! CONFIG: reads or changes a setting of the server.
use vstd::prelude::*;

use super::config_get::{config_get_reply, ConfigGet};
use super::config_set::{config_set_outcome, ConfigSet};
use crate::commands::{check_empty, wrong_args};
use crate::native_types::redis_type::text_result;
use crate::native_types::ErrorStruct;
use crate::server_redis_attributes::ServerRedisAttributes;
use crate::text::{same_text, string_of};

verus! {

pub struct Config;

impl Config {
    /// Runs CONFIG SET or CONFIG GET, as the first argument says, with the
    /// other arguments.
    pub fn run(&self, buffer: Vec<String>, server: &mut ServerRedisAttributes) -> (r: Result<String, ErrorStruct>)
        ensures
            ({
                let args = buffer@.map_values(|s: String| s@);
                if args.len() == 0 {
                    *final(server) == *old(server) && text_result(r) == Err::<Seq<char>, (Seq<char>, Seq<char>)>(
                        wrong_args("config"@),
                    )
                } else if args[0] == "set"@ {
                    config_set_outcome(args.skip(1), *old(server), *final(server), text_result(r))
                } else if args[0] == "get"@ {
                    *final(server) == *old(server) && text_result(r) == config_get_reply(args.skip(1), *old(server))
                } else {
                    *final(server) == *old(server) && text_result(r) == Err::<Seq<char>, (Seq<char>, Seq<char>)>(
                        ("ERR"@, "Unknown subcommand or wrong number of arguments for 'config'"@),
                    )
                }
            }),
    {
        let ghost args = buffer@.map_values(|s: String| s@);
        check_empty(&buffer, "config")?;
        let mut buffer = buffer;
        let item = buffer.remove(0);
        assert(buffer@.map_values(|s: String| s@) =~= args.skip(1));
        if same_text(item.as_str(), "set") {
            ConfigSet.run(buffer, server)
        } else if same_text(item.as_str(), "get") {
            ConfigGet.run(buffer, server)
        } else {
            Err(ErrorStruct::new(
                string_of("ERR"),
                string_of("Unknown subcommand or wrong number of arguments for 'config'"),
            ))
        }
    }
}

} // verus!
