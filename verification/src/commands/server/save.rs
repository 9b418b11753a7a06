//! SAVE: the dump of the key space.
use vstd::prelude::*;

use crate::commands::check_not_empty;
use crate::database::dump::snapshot_text;
use crate::database::Database;
use crate::messages::redis_messages;
use crate::native_types::redis_type::{error_view, simple_string_encoding};
use crate::native_types::{ErrorStruct, RSimpleString, RedisType};
use crate::text::string_of;

verus! {

pub struct Save;

/// The error of a dump that could not be made or written.
pub open spec fn persistence_error() -> (Seq<char>, Seq<char>) {
    ("ERR"@, "Persistence fail"@)
}

impl Save {
    /// The dump of the key space at the time `now`, to be written to the
    /// file of the dump, and the reply; takes no argument.
    pub fn run_at(&self, buffer: Vec<String>, database: &mut Database, now: u64) -> (r: Result<(String, String), ErrorStruct>)
        ensures
            *final(database) == *old(database),
            match r {
                Ok((dump, reply)) => buffer@.len() == 0 && old(database).redis_config is Some && dump@
                    == snapshot_text(old(database).elements.entries@, now) && reply@ == simple_string_encoding(
                    "OK"@,
                ),
                Err(e) => if buffer@.len() > 0 {
                    error_view(e) == ("ERR"@, "syntax error"@)
                } else {
                    old(database).redis_config is None && error_view(e) == persistence_error()
                },
            },
    {
        check_not_empty(&buffer)?;
        match database.take_snapshot_at(now) {
            Ok(dump) => Ok((dump, RSimpleString::encode(redis_messages::ok()))),
            Err(_) => Err(Save::persistence_failure()),
        }
    }

    /// The dump of the key space now and the reply; see `run_at`.
    pub fn run(&self, buffer: Vec<String>, database: &mut Database) -> (r: Result<(String, String), ErrorStruct>)
        ensures
            *final(database) == *old(database),
            match r {
                Ok((dump, reply)) => buffer@.len() == 0 && old(database).redis_config is Some && (exists|now: u64|
                    dump@ == #[trigger] snapshot_text(old(database).elements.entries@, now)) && reply@
                    == simple_string_encoding("OK"@),
                Err(e) => if buffer@.len() > 0 {
                    error_view(e) == ("ERR"@, "syntax error"@)
                } else {
                    old(database).redis_config is None && error_view(e) == persistence_error()
                },
            },
            r matches Ok((dump, _)) ==> exists|now: u64|
                #![trigger snapshot_text(old(database).elements.entries@, now)]
                now >= old(database).time && dump@ == snapshot_text(old(database).elements.entries@, now),
    {
        let now = database.clock_now();
        let r = self.run_at(buffer, database, now);
        assert(r matches Ok((dump, _)) ==> dump@ == snapshot_text(old(database).elements.entries@, now));
        r
    }

    /// The reply when the dump could not be written.
    pub fn persistence_failure() -> (e: ErrorStruct)
        ensures
            error_view(e) == persistence_error(),
    {
        ErrorStruct::new(string_of("ERR"), string_of("Persistence fail"))
    }
}

} // verus!
