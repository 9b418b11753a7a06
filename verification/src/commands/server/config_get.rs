//! CONFIG GET: reads a setting of the server.
use vstd::prelude::*;

use crate::commands::{check_empty, wrong_args};
use crate::native_types::redis_type::{array_encoding, strings_view, text_result};
use crate::native_types::{ErrorStruct, RArray, RedisType};
use crate::server_redis_attributes::ServerRedisAttributes;
use crate::text::{nat_to_decimal, same_text, string_of};

verus! {

pub struct ConfigGet;

/// The reply of CONFIG GET with the arguments `args` on the server `s`: the
/// name of the setting and its value, as an array.
pub open spec fn config_get_reply(args: Seq<Seq<char>>, s: ServerRedisAttributes) -> Result<Seq<char>, (Seq<char>, Seq<char>)> {
    if args.len() == 0 {
        Err(wrong_args("config get"@))
    } else if args[0] == "port"@ {
        Ok(array_encoding(seq!["port"@, s.port@]))
    } else if args[0] == "timeout"@ {
        Ok(array_encoding(seq!["timeout"@, nat_to_decimal(s.timeout as nat)]))
    } else if args[0] == "logfile"@ {
        Ok(array_encoding(seq!["logfile"@, s.logfile_name@]))
    } else if args[0] == "dbfilename"@ {
        Ok(array_encoding(seq!["dbfilename"@, s.dbfile_name@]))
    } else if args[0] == "verbose"@ {
        Ok(array_encoding(seq!["verbose"@, nat_to_decimal(s.verbose as nat)]))
    } else {
        Err(("ERR"@, "Unknown subcommand or wrong number of arguments for 'get'."@))
    }
}

/// The name of a setting and its value, as an array.
fn pair(name: &str, value: String) -> (r: String)
    ensures
        r@ == array_encoding(seq![name@, value@]),
{
    let mut v: Vec<String> = Vec::new();
    v.push(string_of(name));
    v.push(value);
    assert(strings_view(v@) =~= seq![name@, value@]);
    RArray::encode(v)
}

impl ConfigGet {
    /// The value of the setting that the first argument names: port,
    /// timeout, logfile, dbfilename or verbose.
    pub fn run(&self, buffer: Vec<String>, server: &mut ServerRedisAttributes) -> (r: Result<String, ErrorStruct>)
        ensures
            *final(server) == *old(server),
            text_result(r) == config_get_reply(buffer@.map_values(|s: String| s@), *old(server)),
    {
        check_empty(&buffer, "config get")?;
        let item = buffer[0].as_str();
        if same_text(item, "port") {
            Ok(pair("port", server.get_port()))
        } else if same_text(item, "timeout") {
            Ok(pair("timeout", server.get_timeout()))
        } else if same_text(item, "logfile") {
            Ok(pair("logfile", server.get_logfile_name()))
        } else if same_text(item, "dbfilename") {
            Ok(pair("dbfilename", server.get_dbfile_name()))
        } else if same_text(item, "verbose") {
            Ok(pair("verbose", server.get_verbose()))
        } else {
            Err(ErrorStruct::new(
                string_of("ERR"),
                string_of("Unknown subcommand or wrong number of arguments for 'get'."),
            ))
        }
    }
}

} // verus!
