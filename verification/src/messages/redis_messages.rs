//! The catalogue of replies and error messages of the server.
use vstd::prelude::*;

use super::MessageRedis;
use crate::native_types::error::ErrorStruct;
use crate::native_types::error_severity::ErrorSeverity;
use crate::text::{push_text, push_u64, string_of, nat_to_decimal};

verus! {

fn fixed(prefix: &str, message: &str, severity: ErrorSeverity) -> (m: MessageRedis)
    ensures
        m.prefix@ == prefix@,
        m.message@ == message@,
        m.severity == severity,
{
    MessageRedis { prefix: string_of(prefix), message: string_of(message), severity }
}

/// The reply of a command that succeeded.
pub fn ok() -> (r: String)
    ensures
        r@ == "OK"@,
{
    string_of("OK")
}

/// The text that stands for a missing value.
pub fn nil() -> (r: String)
    ensures
        r@ == "(nil)"@,
{
    string_of("(nil)")
}

/// The text of a wrong number of arguments for the command `item`.
pub open spec fn wrong_args_text(item: Seq<char>) -> Seq<char> {
    "wrong number of arguments for '"@ + item + "' command"@
}

fn wrong_args_message(item: &str) -> (r: String)
    ensures
        r@ == wrong_args_text(item@),
{
    let mut r = string_of("wrong number of arguments for '");
    push_text(&mut r, item);
    push_text(&mut r, "' command");
    r
}

/// A wrong number of arguments was given to the command `item`.
pub fn arguments_invalid_to(item: &str) -> (m: MessageRedis)
    ensures
        m.prefix@ == "ERR"@,
        m.message@ == wrong_args_text(item@),
        m.severity == ErrorSeverity::Comunicate,
{
    MessageRedis { prefix: string_of("ERR"), message: wrong_args_message(item), severity: ErrorSeverity::Comunicate }
}

/// The command `item` was given no values.
pub fn not_empty_values_for(item: &str) -> (m: MessageRedis)
    ensures
        m.prefix@ == "ERR"@,
        m.message@ == "'"@ + item@ + "' does not accept empty values"@,
        m.severity == ErrorSeverity::Comunicate,
{
    let mut message = string_of("'");
    push_text(&mut message, item);
    push_text(&mut message, "' does not accept empty values");
    MessageRedis { prefix: string_of("ERR"), message, severity: ErrorSeverity::Comunicate }
}

/// A wrong number of arguments was given to the command `item`.
pub fn wrong_number_args_for(item: &str) -> (m: MessageRedis)
    ensures
        m.prefix@ == "ERR"@,
        m.message@ == wrong_args_text(item@),
        m.severity == ErrorSeverity::Comunicate,
{
    MessageRedis { prefix: string_of("ERR"), message: wrong_args_message(item), severity: ErrorSeverity::Comunicate }
}

pub fn syntax_error() -> (m: MessageRedis)
    ensures
        m.prefix@ == "ERR"@,
        m.message@ == "syntax error"@,
        m.severity == ErrorSeverity::Comunicate,
{
    fixed("ERR", "syntax error", ErrorSeverity::Comunicate)
}

pub fn wrongtype() -> (m: MessageRedis)
    ensures
        m.prefix@ == "WRONGTYPE"@,
        m.message@ == "Operation against a key holding the wrong kind of value"@,
        m.severity == ErrorSeverity::Comunicate,
{
    fixed("WRONGTYPE", "Operation against a key holding the wrong kind of value", ErrorSeverity::Comunicate)
}

pub fn negative_number() -> (m: MessageRedis)
    ensures
        m.prefix@ == "NEG"@,
        m.message@ == "Given number must be positive or zero"@,
        m.severity == ErrorSeverity::Comunicate,
{
    fixed("NEG", "Given number must be positive or zero", ErrorSeverity::Comunicate)
}

pub fn key_not_found() -> (m: MessageRedis)
    ensures
        m.prefix@ == "KEYNOTFOUND"@,
        m.message@ == "Session does not exist or has timed out"@,
        m.severity == ErrorSeverity::Comunicate,
{
    fixed("KEYNOTFOUND", "Session does not exist or has timed out", ErrorSeverity::Comunicate)
}

pub fn write_error() -> (m: MessageRedis)
    ensures
        m.prefix@ == "ERR_WRITE"@,
        m.message@ == "File write failed"@,
        m.severity == ErrorSeverity::Comunicate,
{
    fixed("ERR_WRITE", "File write failed", ErrorSeverity::Comunicate)
}

pub fn ttl_epoch_error() -> (m: MessageRedis)
    ensures
        m.prefix@ == "TTL"@,
        m.message@ == "an error occurred with the epoch expiration"@,
        m.severity == ErrorSeverity::Comunicate,
{
    fixed("TTL", "an error occurred with the epoch expiration", ErrorSeverity::Comunicate)
}

pub fn cannot_write_stream() -> (m: MessageRedis)
    ensures
        m.prefix@ == "CANNOTWRITE"@,
        m.message@ == "an error occurred while writing the tcp stream"@,
        m.severity == ErrorSeverity::CloseClient,
{
    fixed("CANNOTWRITE", "an error occurred while writing the tcp stream", ErrorSeverity::CloseClient)
}

pub fn client_timeout_expired() -> (m: MessageRedis)
    ensures
        m.prefix@ == "CLIENT_OFF"@,
        m.message@ == "timeout expired"@,
        m.severity == ErrorSeverity::CloseClient,
{
    fixed("CLIENT_OFF", "timeout expired", ErrorSeverity::CloseClient)
}

pub fn not_valid_executor() -> (m: MessageRedis)
    ensures
        m.prefix@ == "ERR"@,
        m.message@ == "Executor can't execute this command"@,
        m.severity == ErrorSeverity::Comunicate,
{
    fixed("ERR", "Executor can't execute this command", ErrorSeverity::Comunicate)
}

pub fn not_valid_pubsub() -> (m: MessageRedis)
    ensures
        m.prefix@ == "ERR"@,
        m.message@ == "can't execute command: only SUBSCRIBE and UNSUBSCRIBE are allowed in this context"@,
        m.severity == ErrorSeverity::Comunicate,
{
    fixed("ERR", "can't execute command: only SUBSCRIBE and UNSUBSCRIBE are allowed in this context", ErrorSeverity::Comunicate)
}

pub fn not_valid_monitor() -> (m: MessageRedis)
    ensures
        m.prefix@ == "ERR"@,
        m.message@ == "Replica can't interract with the keyspace"@,
        m.severity == ErrorSeverity::Comunicate,
{
    fixed("ERR", "Replica can't interract with the keyspace", ErrorSeverity::Comunicate)
}

pub fn closed_socket() -> (m: MessageRedis)
    ensures
        m.prefix@ == "SOCKET"@,
        m.message@ == "Attempted to write to a closed socket"@,
        m.severity == ErrorSeverity::CloseClient,
{
    fixed("SOCKET", "Attempted to write to a closed socket", ErrorSeverity::CloseClient)
}

pub fn clone_socket() -> (m: MessageRedis)
    ensures
        m.prefix@ == "SOCKET"@,
        m.message@ == "Clone attempt failed"@,
        m.severity == ErrorSeverity::CloseClient,
{
    fixed("SOCKET", "Clone attempt failed", ErrorSeverity::CloseClient)
}

pub fn empty_buffer() -> (m: MessageRedis)
    ensures
        m.prefix@ == "EMPTYBUFFER"@,
        m.message@ == "Failed to read a client socket buffer"@,
        m.severity == ErrorSeverity::CloseClient,
{
    fixed("EMPTYBUFFER", "Failed to read a client socket buffer", ErrorSeverity::CloseClient)
}

pub fn broken_state() -> (m: MessageRedis)
    ensures
        m.prefix@ == "BROKENFIELDS"@,
        m.message@ == "Client's fields are in a broken state"@,
        m.severity == ErrorSeverity::CloseClient,
{
    fixed("BROKENFIELDS", "Client's fields are in a broken state", ErrorSeverity::CloseClient)
}

pub fn file_read_error() -> (m: MessageRedis)
    ensures
        m.prefix@ == "ERR"@,
        m.message@ == "Something interrupted file read"@,
        m.severity == ErrorSeverity::Comunicate,
{
    fixed("ERR", "Something interrupted file read", ErrorSeverity::Comunicate)
}

pub fn normal_error() -> (m: MessageRedis)
    ensures
        m.prefix@ == "ERR"@,
        m.message@ == "Some command could not be run"@,
        m.severity == ErrorSeverity::Comunicate,
{
    fixed("ERR", "Some command could not be run", ErrorSeverity::Comunicate)
}

/// Something happened that the server cannot recover from.
pub fn unexpected_behaviour(reason: &str) -> (m: MessageRedis)
    ensures
        m.prefix@ == "INSTAPANIC"@,
        m.message@ == reason@,
        m.severity == ErrorSeverity::ShutdownServer,
{
    fixed("INSTAPANIC", reason, ErrorSeverity::ShutdownServer)
}

/// A channel was found closed.
pub fn closed_sender(severity: ErrorSeverity) -> (m: MessageRedis)
    ensures
        m.prefix@ == "SENDER"@,
        m.message@ == "Attempted to send to a closed channel"@,
        m.severity == severity,
{
    fixed("SENDER", "Attempted to send to a closed channel", severity)
}

/// The component `process` could not be created.
pub fn init_failed(process: &str, severity: ErrorSeverity) -> (m: MessageRedis)
    ensures
        m.prefix@ == "INITFAILED"@,
        m.message@ == "Failed to create "@ + process@,
        m.severity == severity,
{
    let mut message = string_of("Failed to create ");
    push_text(&mut message, process);
    MessageRedis { prefix: string_of("INITFAILED"), message, severity }
}

/// The pattern `regex` could not be parsed.
pub fn wrong_regex_pattern(regex: &str) -> (m: MessageRedis)
    ensures
        m.prefix@ == "REGEX"@,
        m.message@ == "Given pattern could not be parsed: "@ + regex@,
        m.severity == ErrorSeverity::Comunicate,
{
    let mut message = string_of("Given pattern could not be parsed: ");
    push_text(&mut message, regex);
    MessageRedis { prefix: string_of("REGEX"), message, severity: ErrorSeverity::Comunicate }
}

/// The lock `lock` was found poisoned.
pub fn poisoned_lock(lock: &str, severity: ErrorSeverity) -> (m: MessageRedis)
    ensures
        m.prefix@ == "POISONLOCK"@,
        m.message@ == "Failed to access to lock: "@ + lock@,
        m.severity == severity,
{
    let mut message = string_of("Failed to access to lock: ");
    push_text(&mut message, lock);
    MessageRedis { prefix: string_of("POISONLOCK"), message, severity }
}

/// The thread `name_thread` panicked.
pub fn thread_panic(name_thread: &str) -> (m: MessageRedis)
    ensures
        m.prefix@ == "THREADPANIC"@,
        m.message@ == "Thread '"@ + name_thread@ + "' has panicked"@,
        m.severity == ErrorSeverity::ShutdownServer,
{
    let mut message = string_of("Thread '");
    push_text(&mut message, name_thread);
    push_text(&mut message, "' has panicked");
    MessageRedis { prefix: string_of("THREADPANIC"), message, severity: ErrorSeverity::ShutdownServer }
}

/// A command name is longer than `max` characters.
pub fn maximum_amount_exceeded(max: usize) -> (m: MessageRedis)
    ensures
        m.prefix@ == "ERR"@,
        m.message@ == "There is no command which name has more than "@ + nat_to_decimal(max as nat)
            + " characters\r\n"@,
        m.severity == ErrorSeverity::Comunicate,
{
    let mut message = string_of("There is no command which name has more than ");
    push_u64(&mut message, max as u64);
    push_text(&mut message, " characters\r\n");
    MessageRedis { prefix: string_of("ERR"), message, severity: ErrorSeverity::Comunicate }
}

/// Each argument between single quotes and followed by a comma and a space.
pub open spec fn quoted_args(buffer: Seq<Seq<char>>) -> Seq<char>
    decreases buffer.len(),
{
    if buffer.len() == 0 {
        Seq::empty()
    } else {
        quoted_args(buffer.drop_last()) + "'"@ + buffer.last() + "', "@
    }
}

/// The text of an unknown command `command_type` given the arguments `buffer`.
pub open spec fn unknown_command_text(command_type: Seq<char>, buffer: Seq<Seq<char>>) -> Seq<char> {
    "unknown command '"@ + command_type + "', with args beginning with: "@ + quoted_args(buffer)
}

fn unknown_command_message(command_type: &String, buffer: &Vec<String>) -> (r: String)
    ensures
        r@ == unknown_command_text(command_type@, buffer@.map_values(|s: String| s@)),
{
    let ghost args = buffer@.map_values(|s: String| s@);
    let mut quoted = String::new();
    let mut i: usize = 0;
    while i < buffer.len()
        invariant
            i <= buffer.len(),
            args == buffer@.map_values(|s: String| s@),
            quoted@ == quoted_args(args.take(i as int)),
        decreases buffer.len() - i,
    {
        push_text(&mut quoted, "'");
        push_text(&mut quoted, buffer[i].as_str());
        push_text(&mut quoted, "', ");
        assert(args.take(i + 1).drop_last() =~= args.take(i as int));
        i = i + 1;
    }
    assert(args.take(buffer.len() as int) =~= args);
    let mut r = string_of("unknown command '");
    push_text(&mut r, command_type.as_str());
    push_text(&mut r, "', with args beginning with: ");
    push_text(&mut r, quoted.as_str());
    r
}

/// The command `command_type` is not known.
pub fn unknown_command(command_type: String, buffer: Vec<String>) -> (m: MessageRedis)
    ensures
        m.prefix@ == "UNKNOWN"@,
        m.message@ == unknown_command_text(command_type@, buffer@.map_values(|s: String| s@)),
        m.severity == ErrorSeverity::Comunicate,
{
    let message = unknown_command_message(&command_type, &buffer);
    MessageRedis { prefix: string_of("UNKNOWN"), message, severity: ErrorSeverity::Comunicate }
}

/// The command `command_type` is not known, as an error to send.
pub fn command_not_found(command_type: String, buffer: Vec<String>) -> (e: ErrorStruct)
    ensures
        e.prefix@ == "ERR"@,
        e.message@ == unknown_command_text(command_type@, buffer@.map_values(|s: String| s@)),
{
    let message = unknown_command_message(&command_type, &buffer);
    ErrorStruct::new(string_of("ERR"), message)
}


/// The banner shown when the server starts, before its port.
pub open spec fn logo_head() -> Seq<char> {
    "                _._                                                  \n           _.-``__ ''-._                                             \n      _.-``    `.  `_.  ''-._           Redis Rust-eze\n  .-`` .-```.  ```\\/    _.,_ ''-._                                  \n (    '      ,       .-`  | `,    )                                  \n |`-._`-...-` __...-.``-._|'` _.-'|     Port: "@
}

/// The banner shown when the server starts, after its port.
pub open spec fn logo_tail() -> Seq<char> {
    "\n |    `-._   `._    /     _.-'    |                                  \n  `-._    `-._  `-./  _.-'    _.-'                                   \n |`-._`-._    `-.__.-'    _.-'_.-'|                                  \n |    `-._`-._        _.-'_.-'    |     https://github.com/taller-1-fiuba-rust/Rust-eze\n  `-._    `-._`-.__.-'_.-'    _.-'                                   \n |`-._`-._    `-.__.-'    _.-'_.-'|                                  \n |    `-._`-._        _.-'_.-'    |                                  \n  `-._    `-._`-.__.-'_.-'    _.-'                                   \n      `-._    `-.__.-'    _.-'                                       \n          `-._        _.-'                                           \n              `-.__.-'                                               \n\n"@
}

/// The banner shown when the server starts, with its port.
pub fn redis_logo(port: &str) -> (r: String)
    ensures
        r@ == logo_head() + port@ + logo_tail(),
{
    let mut r = string_of("                _._                                                  \n           _.-``__ ''-._                                             \n      _.-``    `.  `_.  ''-._           Redis Rust-eze\n  .-`` .-```.  ```\\/    _.,_ ''-._                                  \n (    '      ,       .-`  | `,    )                                  \n |`-._`-...-` __...-.``-._|'` _.-'|     Port: ");
    push_text(&mut r, port);
    push_text(&mut r, "\n |    `-._   `._    /     _.-'    |                                  \n  `-._    `-._  `-./  _.-'    _.-'                                   \n |`-._`-._    `-.__.-'    _.-'_.-'|                                  \n |    `-._`-._        _.-'_.-'    |     https://github.com/taller-1-fiuba-rust/Rust-eze\n  `-._    `-._`-.__.-'_.-'    _.-'                                   \n |`-._`-._    `-.__.-'    _.-'_.-'|                                  \n |    `-._`-._        _.-'_.-'    |                                  \n  `-._    `-._`-.__.-'_.-'    _.-'                                   \n      `-._    `-.__.-'    _.-'                                       \n          `-._        _.-'                                           \n              `-.__.-'                                               \n\n");
    r
}

/// The banner is the same fixed text before and after the port, whatever
/// the port: the text before it names the server and ends with `Port: `,
/// and the text after it starts a new line and ends with an empty line.
pub proof fn law_redis_logo_frame(port: Seq<char>)
    ensures
        ({
            let banner = logo_head() + port + logo_tail();
            let h = logo_head().len() as int;
            let p = port.len() as int;
            &&& banner.take(h) == logo_head()
            &&& banner.subrange(h, h + p) == port
            &&& banner.skip(h + p) == logo_tail()
        }),
        logo_head().subrange(180, 194) == "Redis Rust-eze"@,
        logo_head().len() == 380,
        logo_head().skip(374) == "Port: "@,
        logo_tail().len() == 790,
        logo_tail()[0] == '\n',
        logo_tail().skip(788) == "\n\n"@,
{
    reveal_strlit("                _._                                                  \n           _.-``__ ''-._                                             \n      _.-``    `.  `_.  ''-._           Redis Rust-eze\n  .-`` .-```.  ```\\/    _.,_ ''-._                                  \n (    '      ,       .-`  | `,    )                                  \n |`-._`-...-` __...-.``-._|'` _.-'|     Port: ");
    reveal_strlit("\n |    `-._   `._    /     _.-'    |                                  \n  `-._    `-._  `-./  _.-'    _.-'                                   \n |`-._`-._    `-.__.-'    _.-'_.-'|                                  \n |    `-._`-._        _.-'_.-'    |     https://github.com/taller-1-fiuba-rust/Rust-eze\n  `-._    `-._`-.__.-'_.-'    _.-'                                   \n |`-._`-._    `-.__.-'    _.-'_.-'|                                  \n |    `-._`-._        _.-'_.-'    |                                  \n  `-._    `-._`-.__.-'_.-'    _.-'                                   \n      `-._    `-.__.-'    _.-'                                       \n          `-._        _.-'                                           \n              `-.__.-'                                               \n\n");
    reveal_strlit("Redis Rust-eze");
    reveal_strlit("Port: ");
    reveal_strlit("\n\n");
    let banner = logo_head() + port + logo_tail();
    let h = logo_head().len() as int;
    let p = port.len() as int;
    assert(banner.take(h) =~= logo_head());
    assert(banner.subrange(h, h + p) =~= port);
    assert(banner.skip(h + p) =~= logo_tail());
    assert(logo_head().subrange(180, 194) =~= "Redis Rust-eze"@);
    assert(logo_head().skip(374) =~= "Port: "@);
    assert(logo_tail().skip(788) =~= "\n\n"@);
}

} // verus!
