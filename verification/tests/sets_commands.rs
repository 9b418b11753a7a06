use std::collections::VecDeque;

use rusteze::commands::sets::sadd::Sadd;
use rusteze::commands::sets::scard::Scard;
use rusteze::commands::sets::sismember::Sismember;
use rusteze::commands::sets::smembers::Smembers;
use rusteze::database::{Database, TypeSaved};
use rusteze::messages::redis_messages;
use rusteze::native_types::{RArray, RInteger, RedisType};
use rusteze::string_map::StringSet;

fn strings(words: &[&str]) -> Vec<String> {
    words.iter().map(|w| w.to_string()).collect()
}

fn set_of(members: &[&str]) -> StringSet {
    let mut set = StringSet::new();
    for m in members {
        set.insert(m.to_string());
    }
    set
}

fn error_reply(message: rusteze::messages::MessageRedis) -> String {
    ("-".to_owned() + &message.get_message_complete() + "\r\n").to_string()
}

#[test]
fn test_01_sadd_insert_and_return_amount_insertions() {
    let buffer_mock = strings(&["key", "member1", "member2"]);
    let mut database_mock = Database::new();
    let result_received = Sadd.run(buffer_mock, &mut database_mock);
    let amount_received = result_received.unwrap();
    let expected = RInteger::encode(2);
    assert_eq!(expected, amount_received);
}

#[test]
fn test_02_sadd_does_not_insert_repeated_elements() {
    let buffer_mock = strings(&[
        "key", "member2", "member1", "member1", "member3", "member2", "member1", "member1", "member3",
    ]);
    let mut database_mock = Database::new();
    let result_received = Sadd.run(buffer_mock, &mut database_mock);
    let amount_received = result_received.unwrap();
    let expected = RInteger::encode(3);
    assert_eq!(expected, amount_received);
}

#[test]
fn test_03_sadd_does_not_insert_elements_over_an_existing_key_string() {
    let mut database_mock = Database::new();
    database_mock.insert("key".to_string(), TypeSaved::String("value".to_string()));
    let buffer_mock = strings(&[
        "key", "member2", "member1", "member1", "member3", "member2", "member1", "member1", "member3",
    ]);
    let result_received = Sadd.run(buffer_mock, &mut database_mock);
    assert!(result_received.is_err())
}

#[test]
fn test_04_sadd_does_not_insert_elements_over_an_existing_key_list() {
    let mut database_mock = Database::new();
    let mut new_list = VecDeque::new();
    new_list.push_back("valueOfList".to_string());
    database_mock.insert("key".to_string(), TypeSaved::List(new_list));
    let buffer_mock = strings(&[
        "key", "member2", "member1", "member1", "member3", "member2", "member1", "member1", "member3",
    ]);
    let result_received = Sadd.run(buffer_mock, &mut database_mock);
    assert!(result_received.is_err())
}

#[test]
fn test_01_scard_return_number_of_set_members() {
    let set = set_of(&["m1", "m2", "m3"]);
    let mut database_mock = Database::new();
    database_mock.insert("key".to_string(), TypeSaved::Sets(set));
    let buffer_mock = strings(&["key"]);
    let result_received = Scard.run(buffer_mock, &mut database_mock);
    let excepted = RInteger::encode(3);
    assert_eq!(excepted, result_received.unwrap());
}

#[test]
fn test_02_scard_return_number_of_set_members_but_not_repeated() {
    let set = set_of(&["m1", "m2", "m3", "m3", "m3", "m2", "m2", "m1", "m1", "m3", "m3", "m3"]);
    let mut database_mock = Database::new();
    database_mock.insert("key".to_string(), TypeSaved::Sets(set));
    let buffer_mock = strings(&["key"]);
    let result_received = Scard.run(buffer_mock, &mut database_mock);
    let excepted = RInteger::encode(3);
    assert_eq!(excepted, result_received.unwrap());
}

#[test]
fn test_03_scard_return_zero_if_the_set_is_empty() {
    let set = StringSet::new();
    let mut database_mock = Database::new();
    database_mock.insert("key".to_string(), TypeSaved::Sets(set));
    let buffer_mock = strings(&["key"]);
    let result_received = Scard.run(buffer_mock, &mut database_mock);
    let excepted = RInteger::encode(0);
    assert_eq!(excepted, result_received.unwrap());
}

#[test]
fn test_04_scard_return_zero_if_the_set_dont_exist() {
    let set = StringSet::new();
    let mut database_mock = Database::new();
    database_mock.insert("key".to_string(), TypeSaved::Sets(set));
    let buffer_mock = strings(&["key_random"]);
    let result_received = Scard.run(buffer_mock, &mut database_mock);
    let excepted = RInteger::encode(0);
    assert_eq!(excepted, result_received.unwrap());
}

#[test]
fn test_05_scard_return_error_wrongtype_if_execute_with_key_of_string() {
    let mut database_mock = Database::new();
    database_mock.insert("keyOfString".to_string(), TypeSaved::String("value".to_string()));
    let buffer_mock = strings(&["keyOfString"]);
    let result_received = Scard.run(buffer_mock, &mut database_mock);
    let result_received_encoded = result_received.unwrap_err().get_encoded_message_complete();
    assert_eq!(error_reply(redis_messages::wrongtype()), result_received_encoded);
}

#[test]
fn test_06_scard_return_error_wrongtype_if_execute_with_key_of_lists() {
    let mut database_mock = Database::new();
    let mut new_list = VecDeque::new();
    new_list.push_back("value1".to_string());
    new_list.push_back("value2".to_string());
    database_mock.insert("keyOfList".to_string(), TypeSaved::List(new_list));
    let buffer_mock = strings(&["keyOfList"]);
    let result_received = Scard.run(buffer_mock, &mut database_mock);
    let result_received_encoded = result_received.unwrap_err().get_encoded_message_complete();
    assert_eq!(error_reply(redis_messages::wrongtype()), result_received_encoded);
}

#[test]
fn test_07_scard_return_error_arguments_invalid_ifbuffer_has_many_one_key() {
    let mut database_mock = Database::new();
    let buffer_mock = strings(&["key1", "key2", "key3"]);
    let result_received = Scard.run(buffer_mock, &mut database_mock);
    let result_received_encoded = result_received.unwrap_err().get_encoded_message_complete();
    assert_eq!(error_reply(redis_messages::arguments_invalid_to("scard")), result_received_encoded);
}

#[test]
fn test_01_sismember_return_number_one_if_member_is_contained_in_set() {
    let set = set_of(&["m1", "m2"]);
    let mut database_mock = Database::new();
    database_mock.insert("key".to_string(), TypeSaved::Sets(set));
    let result_received_1 = Sismember.run(strings(&["key", "m1"]), &mut database_mock);
    let result_received_2 = Sismember.run(strings(&["key", "m2"]), &mut database_mock);
    assert_eq!(RInteger::encode(1), result_received_1.unwrap());
    assert_eq!(RInteger::encode(1), result_received_2.unwrap());
}

#[test]
fn test_02_sismember_return_number_zero_if_member_is_not_contained_in_set() {
    let set = set_of(&["m1"]);
    let mut database_mock = Database::new();
    database_mock.insert("key".to_string(), TypeSaved::Sets(set));
    let result_received = Sismember.run(strings(&["key", "m_random"]), &mut database_mock);
    assert_eq!(RInteger::encode(0), result_received.unwrap());
}

#[test]
fn test_03_sismember_return_number_zero_if_the_key_of_set_dont_exist_in_database() {
    let set = set_of(&["m1"]);
    let mut database_mock = Database::new();
    database_mock.insert("key".to_string(), TypeSaved::Sets(set));
    let result_received = Sismember.run(strings(&["key_random", "m_random"]), &mut database_mock);
    assert_eq!(RInteger::encode(0), result_received.unwrap());
}

#[test]
fn test_04_sismember_return_error_wrongtype_if_execute_with_key_of_string() {
    let mut database_mock = Database::new();
    database_mock.insert("keyOfString".to_string(), TypeSaved::String("value".to_string()));
    let result_received = Sismember.run(strings(&["keyOfString", "value"]), &mut database_mock);
    let result_received_encoded = result_received.unwrap_err().get_encoded_message_complete();
    assert_eq!(error_reply(redis_messages::wrongtype()), result_received_encoded);
}

#[test]
fn test_05_sismember_return_error_wrongtype_if_execute_with_key_of_list() {
    let mut database_mock = Database::new();
    let mut new_list = VecDeque::new();
    new_list.push_back("value".to_string());
    new_list.push_back("value_other".to_string());
    database_mock.insert("keyOfList".to_string(), TypeSaved::List(new_list));
    let result_received = Sismember.run(strings(&["keyOfList", "value"]), &mut database_mock);
    let result_received_encoded = result_received.unwrap_err().get_encoded_message_complete();
    assert_eq!(error_reply(redis_messages::wrongtype()), result_received_encoded);
}

#[test]
fn test_06_sismember_return_error_arguments_invalid_ifbuffer_has_more_than_3_arguments() {
    let mut database_mock = Database::new();
    let result_received = Sismember.run(strings(&["arg1", "arg2", "arg3"]), &mut database_mock);
    let result_received_encoded = result_received.unwrap_err().get_encoded_message_complete();
    assert_eq!(error_reply(redis_messages::arguments_invalid_to("sismember")), result_received_encoded);
}

#[test]
fn test01_smembers_return_array_members_of_set_not_necessarily_ordered() {
    let set = set_of(&["m1", "m2"]);
    let mut database_mock = Database::new();
    database_mock.insert("key".to_string(), TypeSaved::Sets(set));
    let result_received = Smembers.run(strings(&["key"]), &mut database_mock);
    let array = result_received.unwrap();
    assert!(array.contains("*2\r\n"));
    assert!(array.contains("$2\r\nm1\r\n"));
    assert!(array.contains("$2\r\nm2\r\n"));
}

#[test]
fn test02_smembers_return_an_empty_array_if_key_does_not_exist_in_database() {
    let set = set_of(&["m1", "m2"]);
    let mut database_mock = Database::new();
    database_mock.insert("key".to_string(), TypeSaved::Sets(set));
    let result_received = Smembers.run(strings(&["key_other"]), &mut database_mock);
    let excepted = RArray::encode(vec![]);
    assert_eq!(excepted, result_received.unwrap());
}

#[test]
fn test03_smembers_return_an_empty_array_if_set_is_empty() {
    let set = StringSet::new();
    let mut database_mock = Database::new();
    database_mock.insert("key".to_string(), TypeSaved::Sets(set));
    let result_received = Smembers.run(strings(&["key"]), &mut database_mock);
    let excepted = RArray::encode(vec![]);
    assert_eq!(excepted, result_received.unwrap());
}

#[test]
fn test04_smembers_return_error_wrongtype_if_execute_with_key_of_string() {
    let mut database_mock = Database::new();
    database_mock.insert("keyOfString".to_string(), TypeSaved::String("value".to_string()));
    let result_received = Smembers.run(strings(&["keyOfString"]), &mut database_mock);
    let result_received_encoded = result_received.unwrap_err().get_encoded_message_complete();
    assert_eq!(error_reply(redis_messages::wrongtype()), result_received_encoded);
}

#[test]
fn test05_smembers_return_error_wrongtype_if_execute_with_key_of_list() {
    let mut database_mock = Database::new();
    let mut new_list = VecDeque::new();
    new_list.push_back("value1".to_string());
    new_list.push_back("value2".to_string());
    database_mock.insert("keyOfList".to_string(), TypeSaved::List(new_list));
    let result_received = Smembers.run(strings(&["keyOfList"]), &mut database_mock);
    let result_received_encoded = result_received.unwrap_err().get_encoded_message_complete();
    assert_eq!(error_reply(redis_messages::wrongtype()), result_received_encoded);
}

#[test]
fn test06_smembers_return_error_arguments_invalid_ifbuffer_has_many_one_arguments() {
    let mut database_mock = Database::new();
    let result_received = Smembers.run(strings(&["arg1", "arg2", "arg3"]), &mut database_mock);
    let result_received_encoded = result_received.unwrap_err().get_encoded_message_complete();
    assert_eq!(error_reply(redis_messages::arguments_invalid_to("smembers")), result_received_encoded);
}
