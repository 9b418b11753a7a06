//! INFO about the server.
use vstd::prelude::*;

use crate::native_types::redis_type::{array_encoding, strings_view};
use crate::native_types::{ErrorStruct, RArray, RedisType};
use crate::server_redis_attributes::ServerRedisAttributes;
use crate::text::nat_to_decimal;

verus! {

pub struct InfoSv;

impl InfoSv {
    /// The lines about the server, as an array; ignores the arguments.
    pub fn run(&self, _buffer: Vec<String>, server: &mut ServerRedisAttributes) -> (r: Result<String, ErrorStruct>)
        ensures
            *final(server) == *old(server),
            r matches Ok(reply) && reply@ == array_encoding(
                seq![
                    "SERVER:"@,
                    "ip: "@ + old(server).ip@,
                    "tcp port: "@ + old(server).port@,
                    old(server).executable@,
                    "verbose level: "@ + nat_to_decimal(old(server).verbose as nat),
                    "connection timeout: "@ + nat_to_decimal(old(server).timeout as nat),
                    "log file name: "@ + old(server).logfile_name@,
                ],
            ),
    {
        let lines = server.info();
        assert(strings_view(lines@) =~= lines@.map_values(|l: String| l@));
        Ok(RArray::encode(lines))
    }
}

} // verus!
