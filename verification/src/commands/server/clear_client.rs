//! Forgets a client of the server.
use vstd::prelude::*;

use crate::messages::redis_messages;
use crate::native_types::redis_type::simple_string_encoding;
use crate::native_types::{ErrorStruct, RSimpleString, RedisType};
use crate::server_redis_attributes::{without_client, ServerRedisAttributes};

verus! {

pub struct ClearClient;

impl ClearClient {
    /// Forgets the client whose address is the first argument.
    pub fn run(&self, buffer: Vec<String>, server: &mut ServerRedisAttributes) -> (r: Result<String, ErrorStruct>)
        requires
            buffer@.len() > 0,
        ensures
            final(server).clients@.map_values(|c: String| c@) == without_client(old(server).clients@, buffer@[0]@),
            final(server).monitor_notes == old(server).monitor_notes,
            final(server).shutting_down == old(server).shutting_down,
            r matches Ok(reply) && reply@ == simple_string_encoding("OK"@),
    {
        server.remove_client(buffer[0].as_str());
        Ok(RSimpleString::encode(redis_messages::ok()))
    }
}

} // verus!
