//! Leaves a command for the monitors to see.
use vstd::prelude::*;

use crate::messages::redis_messages;
use crate::native_types::redis_type::simple_string_encoding;
use crate::native_types::{ErrorStruct, RSimpleString, RedisType};
use crate::server_redis_attributes::ServerRedisAttributes;

verus! {

pub struct NotifyMonitors;

impl NotifyMonitors {
    /// The last argument is the address of the client that sent the
    /// command, the others are its words; they are left for the monitors.
    pub fn run(&self, buffer: Vec<String>, server: &mut ServerRedisAttributes) -> (r: Result<String, ErrorStruct>)
        requires
            buffer@.len() > 0,
        ensures
            final(server).monitor_notes@.len() == old(server).monitor_notes@.len() + 1,
            final(server).monitor_notes@.drop_last() == old(server).monitor_notes@,
            final(server).monitor_notes@.last().0 == buffer@.last(),
            final(server).monitor_notes@.last().1@ == buffer@.drop_last(),
            final(server).clients == old(server).clients,
            final(server).shutting_down == old(server).shutting_down,
            r matches Ok(reply) && reply@ == simple_string_encoding("OK"@),
    {
        let mut buffer = buffer;
        let addr = buffer.pop().unwrap();
        server.notify_monitors(addr, buffer);
        Ok(RSimpleString::encode(redis_messages::ok()))
    }
}

} // verus!
