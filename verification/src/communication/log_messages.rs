//! The messages of the log, each with the verbose level from which it is
//! shown.
use vstd::prelude::*;

use crate::server_redis_attributes::ClientFields;
use crate::text::{push_text, string_of};

verus! {

/// A message of the log and the level it needs.
pub struct LogMessage {
    pub verbose_priority: usize,
    pub message: Option<String>,
}

/// The text that `{:?}` gives for a list of strings: each quoted and
/// escaped, in brackets, separated by commas.
pub uninterp spec fn debug_strings(items: Seq<Seq<char>>) -> Seq<char>;

/// The list of strings as `{:?}` writes it (std's `Debug` of a slice of
/// strings). The text is named, not spelt out: it depends only on the
/// strings.
#[verifier::external_body]
fn debug_text(items: &[String]) -> (r: String)
    ensures
        r@ == debug_strings(items@.map_values(|s: String| s@)),
{
    format!("{:?}", items)
}

impl LogMessage {
    pub fn new(verbose_priority: usize, message: String) -> (m: LogMessage)
        ensures
            m.verbose_priority == verbose_priority,
            m.message == Some(message),
    {
        LogMessage { verbose_priority, message: Some(message) }
    }

    /// The message, when the verbose level `verbose` is above the level it
    /// needs.
    pub fn is_verbosely_printable(&self, verbose: &usize) -> (r: Option<&String>)
        ensures
            r == (if *verbose > self.verbose_priority {
                match &self.message {
                    Some(m) => Some(m),
                    None => None,
                }
            } else {
                None
            }),
    {
        if *verbose > self.verbose_priority {
            match &self.message {
                Some(m) => Some(m),
                None => None,
            }
        } else {
            None
        }
    }

    /// Takes the message out, whatever the verbose level.
    pub fn take_message(&mut self) -> (r: Option<String>)
        ensures
            r == old(self).message,
            final(self).message is None,
            final(self).verbose_priority == old(self).verbose_priority,
    {
        self.message.take()
    }

    pub fn test_message1() -> (m: LogMessage)
        ensures
            m.verbose_priority == 2,
            m.message matches Some(t) && t@ == "This is test 1"@,
    {
        LogMessage::new(2, string_of("This is test 1"))
    }

    pub fn test_message2() -> (m: LogMessage)
        ensures
            m.verbose_priority == 2,
            m.message matches Some(t) && t@ == "This is test 2"@,
    {
        LogMessage::new(2, string_of("This is test 2"))
    }

    pub fn test_message3() -> (m: LogMessage)
        ensures
            m.verbose_priority == 2,
            m.message matches Some(t) && t@ == "This is test 3"@,
    {
        LogMessage::new(2, string_of("This is test 3"))
    }

    /// COMMAND --> KEY: VALUE
    pub fn database_correctly_updated(formatted_data: String) -> (m: LogMessage)
        ensures
            m.verbose_priority == 9,
            m.message matches Some(t) && t@ == "Database update: "@ + formatted_data@,
    {
        LogMessage::new(9, prefixed("Database update: ", formatted_data.as_str()))
    }

    /// The server stops listening at `address`.
    pub fn off_server(address: &str) -> (m: LogMessage)
        ensures
            m.verbose_priority == 2,
            m.message matches Some(t) && t@ == "Server OFF in "@ + address@,
    {
        LogMessage::new(2, prefixed("Server OFF in ", address))
    }

    /// The server listens at `address`.
    pub fn start_up(address: &str) -> (m: LogMessage)
        ensures
            m.verbose_priority == 2,
            m.message matches Some(t) && t@ == "Server ON in "@ + address@,
    {
        LogMessage::new(2, prefixed("Server ON in ", address))
    }

    /// A client could not connect; `error` tells why.
    pub fn error_to_connect_client(error: &str) -> (m: LogMessage)
        ensures
            m.verbose_priority == 2,
            m.message matches Some(t) && t@ == "Error to connect client: "@ + error@,
    {
        LogMessage::new(2, prefixed("Error to connect client: ", error))
    }

    pub fn log_closed() -> (m: LogMessage)
        ensures
            m.verbose_priority == 2,
            m.message matches Some(t) && t@ == "Log center is closed."@,
    {
        LogMessage::new(2, string_of("Log center is closed."))
    }

    /// The command that a client sent: its address in brackets, then the
    /// words as `{:?}` lists them.
    pub fn command_send_by_client(command: &[String], client_fields: &ClientFields) -> (m: LogMessage)
        ensures
            m.verbose_priority == 2,
            m.message matches Some(t) && t@ == client_command_text(
                client_fields.address@,
                debug_strings(command@.map_values(|s: String| s@)),
            ),
    {
        let listed = debug_text(command);
        LogMessage::client_command(client_fields.address.as_str(), listed.as_str())
    }

    /// The command that a client sent, its words already listed.
    pub fn client_command(address: &str, listed: &str) -> (m: LogMessage)
        ensures
            m.verbose_priority == 2,
            m.message matches Some(t) && t@ == client_command_text(address@, listed@),
    {
        let mut text = string_of("[");
        push_text(&mut text, address);
        push_text(&mut text, "] ");
        push_text(&mut text, listed);
        LogMessage::new(2, text)
    }

    /// A client at `address` disconnected.
    pub fn client_off(address: &str) -> (m: LogMessage)
        ensures
            m.verbose_priority == 2,
            m.message matches Some(t) && t@ == "Client disconected: "@ + address@,
    {
        LogMessage::new(2, prefixed("Client disconected: ", address))
    }

    /// A client at `address` connected.
    pub fn new_conection(address: &str) -> (m: LogMessage)
        ensures
            m.verbose_priority == 2,
            m.message matches Some(t) && t@ == "New conection: "@ + address@,
    {
        LogMessage::new(2, prefixed("New conection: ", address))
    }
}

/// The log text of a command: the address in brackets, then the words.
pub open spec fn client_command_text(address: Seq<char>, listed: Seq<char>) -> Seq<char> {
    "["@ + address + "] "@ + listed
}

/// `head` followed by `tail`.
fn prefixed(head: &str, tail: &str) -> (r: String)
    ensures
        r@ == head@ + tail@,
{
    let mut r = string_of(head);
    push_text(&mut r, tail);
    r
}

} // verus!
