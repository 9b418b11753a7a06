use rusteze::communication::log_messages::LogMessage;
use rusteze::native_types::NativeTypes;
use rusteze::redis_string::{RedisString, RedisTypes};
use rusteze::server_redis_attributes::ClientFields;
use rusteze::string_map::StringMap;

#[test]
fn test01_print_a_log_message() {
    let message = LogMessage::new(3, "This is a test".to_string());
    let verbose = 4;
    assert_eq!(message.is_verbosely_printable(&verbose), Some(&"This is a test".to_string()));
}

#[test]
fn test02_can_not_print_because_of_greater_verbose() {
    let message = LogMessage::new(3, "This is a test".to_string());
    let verbose = 2;
    assert_eq!(message.is_verbosely_printable(&verbose), None);
}

#[test]
fn test03_get_the_message_no_matter_which_verbose() {
    let mut message = LogMessage::new(3, "This is a test".to_string());
    assert_eq!(message.take_message(), Some("This is a test".to_string()));
    assert_eq!(message.take_message(), None);
}

#[test]
fn log_message_of_a_command_lists_its_words() {
    let client = ClientFields::new("127.0.0.1:5000".to_string());
    let mut message = LogMessage::command_send_by_client(&["set".to_string(), "k\"ey".to_string()], &client);
    assert_eq!(message.take_message(), Some("[127.0.0.1:5000] [\"set\", \"k\\\"ey\"]".to_string()));
}

#[test]
fn log_message_texts() {
    let mut m = LogMessage::database_correctly_updated("SET k: v".to_string());
    assert_eq!(m.verbose_priority, 9);
    assert_eq!(m.take_message(), Some("Database update: SET k: v".to_string()));
    let mut m = LogMessage::start_up("127.0.0.1:6379");
    assert_eq!(m.take_message(), Some("Server ON in 127.0.0.1:6379".to_string()));
    let mut m = LogMessage::log_closed();
    assert_eq!(m.take_message(), Some("Log center is closed.".to_string()));
}

const NOT_EMPTY: &str = "ERR RedisString not accept empty values";
const OK: &str = "OK";
const SET_ARGUGMENTS_INVALID: &str = "ERR wrong number of arguments for 'set' command";

#[test]
fn test01_set_return_simple_string_with_ok() {
    let buffer_vec_mock = vec!["set", "key", "value"];
    let mut database_mock: StringMap<RedisTypes> = StringMap::new();
    let result_received = RedisString::set(buffer_vec_mock, &mut database_mock);
    let excepted_result = ("+".to_owned() + OK + "\r\n").to_string();
    assert_eq!(excepted_result, result_received.unwrap().encode().unwrap());
}

#[test]
fn test02_set_without_value_return_err() {
    let buffer_vec_mock = vec!["set", "key"];
    let mut database_mock: StringMap<RedisTypes> = StringMap::new();
    let result_received = RedisString::set(buffer_vec_mock, &mut database_mock);
    let excepted_result = ("-".to_owned() + SET_ARGUGMENTS_INVALID + "\r\n").to_string();
    assert_eq!(excepted_result, result_received.unwrap_err().encode().unwrap());
}

#[test]
fn test03_set_without_value_and_key_return_err() {
    let buffer_vec_mock = vec!["set"];
    let mut database_mock: StringMap<RedisTypes> = StringMap::new();
    let result_received = RedisString::set(buffer_vec_mock, &mut database_mock);
    let excepted_result = ("-".to_owned() + SET_ARGUGMENTS_INVALID + "\r\n").to_string();
    assert_eq!(excepted_result, result_received.unwrap_err().encode().unwrap());
}

#[test]
fn test04_redis_string_not_accept_empty_values() {
    let result_received = RedisString::new("".to_string());
    let excepted_result = ("-".to_owned() + NOT_EMPTY + "\r\n").to_string();
    assert_eq!(excepted_result, result_received.unwrap_err().encode().unwrap());
}

#[test]
fn test05_redis_string_can_return_the_value_stored_as_bulk_string_native_type() {
    let value = "a value";
    let redis_string = RedisString::new(value.to_string()).unwrap();
    let result_received = redis_string.as_native_type();
    let excepted_result = ("$".to_owned() + value.len().to_string().as_str() + "\r\n" + value + "\r\n").to_string();
    assert_eq!(excepted_result, result_received.encode().unwrap());
}

#[test]
fn redis_string_run_splits_on_white_space() {
    let mut database: StringMap<RedisTypes> = StringMap::new();
    let r = RedisString::run("  set\tkey \u{3000} value  ".to_string(), &mut database);
    assert_eq!(r.unwrap().encode().unwrap(), "+OK\r\n".to_string());
    match database.get("key") {
        Some(RedisTypes::String(s)) => assert_eq!(s.value, "value".to_string()),
        None => panic!(),
    }
    let r = RedisString::run("get key".to_string(), &mut database);
    let error: NativeTypes = r.unwrap_err();
    assert_eq!(error.encode().unwrap(), "-ERR Command not found\r\n".to_string());
}

#[test]
fn redis_logo_frames_the_port() {
    let banner = rusteze::messages::redis_messages::redis_logo("6379");
    assert!(banner.contains("Redis Rust-eze"));
    assert!(banner.contains("Port: 6379\n"));
    assert!(banner.ends_with("\n\n"));
    let other = rusteze::messages::redis_messages::redis_logo("7000");
    assert_eq!(banner.replace("6379", "7000"), other);
}
