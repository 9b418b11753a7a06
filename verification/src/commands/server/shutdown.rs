//! SHUTDOWN: the server stops.
use vstd::prelude::*;

use crate::messages::redis_messages;
use crate::native_types::redis_type::{error_view, simple_string_encoding};
use crate::native_types::{ErrorStruct, RSimpleString, RedisType};
use crate::server_redis_attributes::ServerRedisAttributes;
use crate::text::string_of;

verus! {

pub struct Shutdown;

impl Shutdown {
    /// Marks the server to stop and gives the address to connect to, which
    /// wakes it up to see the mark; ignores the arguments.
    pub fn run(&self, _buffer: Vec<String>, server: &mut ServerRedisAttributes) -> (addr: String)
        ensures
            *final(server) == (ServerRedisAttributes { shutting_down: true, ..*old(server) }),
            addr@ == old(server).ip@ + seq![':'] + old(server).port@,
    {
        server.store(true);
        server.get_addr()
    }

    /// The reply once the connection to wake the server up was tried: OK
    /// when it was made; otherwise the server is not to stop after all.
    pub fn finish(server: &mut ServerRedisAttributes, connected: bool) -> (r: Result<String, ErrorStruct>)
        ensures
            connected ==> *final(server) == *old(server) && (r matches Ok(reply) && reply@
                == simple_string_encoding("OK"@)),
            !connected ==> *final(server) == (ServerRedisAttributes { shutting_down: false, ..*old(server) })
                && (r matches Err(e) && error_view(e) == ("ERR"@, "Error to close the server."@)),
    {
        if connected {
            Ok(RSimpleString::encode(redis_messages::ok()))
        } else {
            server.store(false);
            Err(ErrorStruct::new(string_of("ERR"), string_of("Error to close the server.")))
        }
    }
}

} // verus!
