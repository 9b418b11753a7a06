use rusteze::commands::set::SetCommand;
use rusteze::commands::strlen::Strlen;
use rusteze::commands::v2::database_mock_v2::{DatabaseMock2, TypeSaved as TypeSaved2};
use rusteze::commands::v2::mset_v2::Mset2;
use rusteze::database::{Database, TypeSaved};
use rusteze::messages::redis_messages;
use rusteze::native_types::{RBulkString, RedisType};

#[test]
fn test01_set_key_and_value_return_ok() {
    let buffer_vec_mock = vec!["set", "key", "value"];
    let mut database_mock = Database::new();
    let result_received = SetCommand::run(buffer_vec_mock, &mut database_mock);
    let excepted_result: String = ("+".to_owned() + &redis_messages::ok() + "\r\n").to_string();
    assert_eq!(excepted_result, result_received.unwrap());
}

#[test]
fn test04_set_without_value_return_err() {
    let buffer_vec_mock = vec!["set", "key"];
    let mut database_mock = Database::new();
    let result_received = SetCommand::run(buffer_vec_mock, &mut database_mock);
    let result_received_encoded = result_received.unwrap_err().get_encoded_message_complete();
    let excepted_message_redis = redis_messages::arguments_invalid_to("set");
    let excepted_result: String =
        ("-".to_owned() + &excepted_message_redis.get_message_complete() + "\r\n").to_string();
    assert_eq!(excepted_result, result_received_encoded);
}

#[test]
fn test05_set_without_value_and_key_return_err() {
    let buffer_vec_mock = vec!["set"];
    let mut database_mock = Database::new();
    let result_received = SetCommand::run(buffer_vec_mock, &mut database_mock);
    let result_received_encoded = result_received.unwrap_err().get_encoded_message_complete();
    let excepted_message_redis = redis_messages::arguments_invalid_to("set");
    let excepted_result =
        ("-".to_owned() + &excepted_message_redis.get_message_complete() + "\r\n").to_string();
    assert_eq!(excepted_result, result_received_encoded);
}

#[test]
fn test06_set_without_value_and_key_return_err_syntax() {
    let buffer_vec_mock = vec!["set", "set", "set", "set"];
    let mut database_mock = Database::new();
    let result_received = SetCommand::run(buffer_vec_mock, &mut database_mock);
    let result_received_encoded = result_received.unwrap_err().get_encoded_message_complete();
    let excepted_message_redis = redis_messages::syntax_error();
    let excepted_result =
        ("-".to_owned() + &excepted_message_redis.get_message_complete() + "\r\n").to_string();
    assert_eq!(excepted_result, result_received_encoded);
}

#[test]
fn test01_strlen_existing_key() {
    let mut data = Database::new();
    data.insert("mykey".to_string(), TypeSaved::String("somevalue".to_string()));
    let mut buffer: Vec<&str> = vec!["mykey"];
    let encoded = Strlen::run(&mut buffer, &mut data);
    assert_eq!(encoded.unwrap(), ":9\r\n".to_string());
}

#[test]
fn test02_incrby_non_existing_key() {
    let mut data = Database::new();
    let mut buffer: Vec<&str> = vec!["mykey"];
    let encoded = Strlen::run(&mut buffer, &mut data);
    assert_eq!(encoded.unwrap(), ":0\r\n".to_string());
}

fn get2(database: &mut DatabaseMock2, key: &str) -> String {
    match database.get(key) {
        Some(TypeSaved2::String(value)) => RBulkString::encode(value.to_string()),
        _ => "$-1\r\n".to_string(),
    }
}

#[test]
fn test01_mset_reemplace_value_old_of_key_and_insert_more_elements() {
    let buffer_vec_mock2 = vec!["mset", "key1", "value1_new", "key2", "value2"];
    let mut database_mock = DatabaseMock2::new();
    database_mock.insert("key1".to_string(), TypeSaved2::String("value1".to_string()));

    let _ = Mset2::run(buffer_vec_mock2, &mut database_mock);

    let result_received1 = get2(&mut database_mock, "key1");
    let excepted = RBulkString::encode("value1_new".to_string());
    assert_eq!(excepted, result_received1);

    let result_received2 = get2(&mut database_mock, "key2");
    let excepted = RBulkString::encode("value2".to_string());
    assert_eq!(excepted, result_received2);
}

#[test]
fn test02_mset_with_bad_args_return_err() {
    let buffer_vec_mock = vec!["mset", "key1", "value1_new", "key2"];
    let mut database_mock = DatabaseMock2::new();
    let result_received = Mset2::run(buffer_vec_mock, &mut database_mock);
    let result_received_encoded = result_received.unwrap_err().get_encoded_message_complete();
    let excepted_message_redis = redis_messages::wrong_number_args_for("mset");
    let excepted_result: String =
        ("-".to_owned() + &excepted_message_redis.get_message_complete() + "\r\n").to_string();
    assert_eq!(excepted_result, result_received_encoded);
}

#[test]
fn mset2_refuses_an_empty_request_and_another_command() {
    let mut database_mock = DatabaseMock2::new();
    let error = Mset2::run(vec![], &mut database_mock).unwrap_err();
    assert_eq!(error.print_it(), "ERR 'mset command' does not accept empty values");
    let error = Mset2::run(vec!["mget", "k", "v"], &mut database_mock).unwrap_err();
    assert_eq!(error.print_it(), "ERR unknown command 'mget', with args beginning with: 'k', 'v', ");
    assert!(database_mock.get("k").is_none());
}

#[test]
fn set_refuses_an_empty_request() {
    let mut database_mock = Database::new();
    let error = SetCommand::run(vec![], &mut database_mock).unwrap_err();
    assert_eq!(error.print_it(), "ERR 'Strings' does not accept empty values");
}

#[test]
fn strlen_of_a_key_that_holds_no_string_is_an_error() {
    let mut data = Database::new();
    let mut set = rusteze::string_map::StringSet::new();
    set.insert("m".to_string());
    data.insert("s".to_string(), TypeSaved::Sets(set));
    let mut buffer: Vec<&str> = vec!["s"];
    let error = Strlen::run(&mut buffer, &mut data).unwrap_err();
    assert_eq!(
        error.print_it(),
        "WRONGTYPE Operation against a key holding the wrong kind of value"
    );
    assert!(buffer.is_empty());
}

#[test]
fn strlen_at_a_time_past_the_deadline_gives_zero() {
    let mut data = Database::new();
    data.insert("k".to_string(), TypeSaved::String("abc".to_string()));
    data.set_ttl_at("k", 10, 0).unwrap();
    let mut buffer: Vec<&str> = vec!["k"];
    assert_eq!(Strlen::run_at(&mut buffer, &mut data, 5_000_000_000).unwrap(), ":3\r\n".to_string());
    let mut buffer: Vec<&str> = vec!["k"];
    assert_eq!(Strlen::run_at(&mut buffer, &mut data, 11_000_000_000).unwrap(), ":0\r\n".to_string());
    assert_eq!(data.size(), 0);
}
