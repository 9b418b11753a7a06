//! MONITOR: the client starts to watch the commands of the others.
use vstd::prelude::*;

use crate::native_types::redis_type::simple_string_encoding;
use crate::native_types::{ErrorStruct, RSimpleString, RedisType};
use crate::server_redis_attributes::{ClientFields, Status};
use crate::text::string_of;

verus! {

pub struct Monitor;

impl Monitor {
    /// Makes the client a monitor; ignores the arguments.
    pub fn run(&self, _buffer: Vec<String>, status: &mut ClientFields) -> (r: Result<String, ErrorStruct>)
        ensures
            final(status).status == Status::Monitor,
            final(status).address == old(status).address,
            r matches Ok(reply) && reply@ == simple_string_encoding(
                "MONITOR MODE ACTIVATED. PRESS CRTL+C FOR EXIT"@,
            ),
    {
        status.replace_status(Status::Monitor);
        Ok(RSimpleString::encode(string_of("MONITOR MODE ACTIVATED. PRESS CRTL+C FOR EXIT")))
    }
}

} // verus!
