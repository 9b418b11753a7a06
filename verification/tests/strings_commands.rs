use rusteze::commands::strings::append::Append;
use rusteze::commands::strings::decrby::Decrby;
use rusteze::commands::strings::get::Get;
use rusteze::commands::strings::getdel::Getdel;
use rusteze::commands::strings::getset::Getset;
use rusteze::commands::strings::incrby::Incrby;
use rusteze::commands::strings::mget::Mget;
use rusteze::commands::strings::mset::Mset;
use rusteze::commands::strings::set::SetCommand;
use rusteze::commands::strings::strlen::Strlen;
use rusteze::database::{Database, TypeSaved};
use rusteze::messages::redis_messages;
use rusteze::native_types::{RArray, RBulkString, RedisType};

fn strings(words: &[&str]) -> Vec<String> {
    words.iter().map(|w| w.to_string()).collect()
}

#[test]
fn test_01_append_to_an_existing_key() {
    let mut data = Database::new();
    data.insert("key".to_string(), TypeSaved::String("value".to_string()));
    let buffer = strings(&["key", "Appended"]);
    let encoded = Append.run(buffer, &mut data);
    assert_eq!(encoded.unwrap(), ":13\r\n".to_string());
    assert_eq!(data.get("key"), Some(&TypeSaved::String("valueAppended".to_string())));
}

#[test]
fn test_02_append_to_a_non_existing_key() {
    let mut data = Database::new();
    let buffer = strings(&["key", "newValue"]);
    let encoded = Append.run(buffer, &mut data);
    assert_eq!(encoded.unwrap(), ":8\r\n".to_string());
    assert_eq!(data.get("key"), Some(&TypeSaved::String("newValue".to_string())));
}

#[test]
fn append_test_03_wrong_number_of_arguments() {
    let mut data = Database::new();
    data.insert("key".to_string(), TypeSaved::String("value".to_string()));
    let buffer = strings(&["key"]);
    let encoded = Append.run(buffer, &mut data);
    match encoded {
        Ok(_value) => {}
        Err(error) => assert_eq!(error.print_it(), "ERR wrong number of arguments for 'append' command"),
    }
}

#[test]
fn test01_decrby_existing_key() {
    let mut data = Database::new();
    data.insert("mykey".to_string(), TypeSaved::String("10".to_string()));
    let buffer = strings(&["mykey", "3"]);
    let encoded = Decrby.run(buffer, &mut data);
    assert_eq!(encoded.unwrap(), ":7\r\n".to_string());
    assert_eq!(data.get("mykey"), Some(&TypeSaved::String("7".to_string())));
}

#[test]
fn test02_decrby_existing_key_by_negative_integer() {
    let mut data = Database::new();
    data.insert("mykey".to_string(), TypeSaved::String("10".to_string()));
    let buffer = strings(&["mykey", "-3"]);
    let encoded = Decrby.run(buffer, &mut data);
    assert_eq!(encoded.unwrap(), ":13\r\n".to_string());
    assert_eq!(data.get("mykey"), Some(&TypeSaved::String("13".to_string())));
}

#[test]
fn test03_decrby_existing_key_with_negative_integer_value() {
    let mut data = Database::new();
    data.insert("mykey".to_string(), TypeSaved::String("-10".to_string()));
    let buffer = strings(&["mykey", "3"]);
    let encoded = Decrby.run(buffer, &mut data);
    assert_eq!(encoded.unwrap(), ":-13\r\n".to_string());
    assert_eq!(data.get("mykey"), Some(&TypeSaved::String("-13".to_string())));
}

#[test]
fn test04_decrby_existing_key_with_negative_integer_value_by_negative_integer() {
    let mut data = Database::new();
    data.insert("mykey".to_string(), TypeSaved::String("-10".to_string()));
    let buffer = strings(&["mykey", "-3"]);
    let encoded = Decrby.run(buffer, &mut data);
    assert_eq!(encoded.unwrap(), ":-7\r\n".to_string());
    assert_eq!(data.get("mykey"), Some(&TypeSaved::String("-7".to_string())));
}

#[test]
fn test05_decrby_non_existing_key() {
    let mut data = Database::new();
    let buffer = strings(&["mykey", "3"]);
    let encoded = Decrby.run(buffer, &mut data);
    assert_eq!(encoded.unwrap(), ":-3\r\n".to_string());
    assert_eq!(data.get("mykey"), Some(&TypeSaved::String("-3".to_string())));
}

#[test]
fn test06_decrby_existing_key_with_non_decrementable_value() {
    let mut data = Database::new();
    data.insert("mykey".to_string(), TypeSaved::String("value".to_string()));
    let buffer = strings(&["mykey", "value"]);
    let error = Decrby.run(buffer, &mut data);
    assert_eq!(error.unwrap_err().print_it(), "ERR value is not an integer or out of range".to_string());
}

#[test]
fn test07_decrby_existing_key_by_non_integer() {
    let mut data = Database::new();
    data.insert("mykey".to_string(), TypeSaved::String("10".to_string()));
    let buffer = strings(&["mykey", "a"]);
    let error = Decrby.run(buffer, &mut data);
    assert_eq!(error.unwrap_err().print_it(), "ERR value is not an integer or out of range".to_string());
}

#[test]
fn test01_get_value_of_key_correct_is_success() {
    let buffer_mock_get = strings(&["key"]);
    let mut database_mock = Database::new();
    database_mock.insert("key".to_string(), TypeSaved::String("value".to_string()));
    let result_received = Get.run(buffer_mock_get, &mut database_mock);
    let expected_result = RBulkString::encode("value".to_string());
    assert_eq!(expected_result, result_received.unwrap());
}

#[test]
fn test02_get_value_of_key_inorrect_return_result_ok_with_nil() {
    let buffer_mock_get = strings(&["key_other"]);
    let mut database_mock = Database::new();
    database_mock.insert("key".to_string(), TypeSaved::String("value".to_string()));
    let result_received = Get.run(buffer_mock_get, &mut database_mock);
    let received = result_received.unwrap();
    let expected_result = "$-1\r\n".to_string();
    assert_eq!(expected_result, received)
}

#[test]
fn test01_getdel_of_an_existing_key() {
    let mut data = Database::new();
    data.insert("key".to_string(), TypeSaved::String("value".to_string()));
    let buffer = strings(&["key"]);
    let encoded = Getdel.run(buffer, &mut data);
    assert_eq!(encoded.unwrap(), "$5\r\nvalue\r\n".to_string());
    assert_eq!(data.get("key"), None);
}

#[test]
fn test02_getdel_of_a_non_existing_key() {
    let mut data = Database::new();
    let buffer = strings(&["key"]);
    let encoded = Getdel.run(buffer, &mut data);
    assert_eq!(encoded.unwrap(), "$-1\r\n".to_string());
    assert_eq!(data.get("key"), None);
}

#[test]
fn test03_wrong_number_of_arguments() {
    let mut data = Database::new();
    data.insert("key".to_string(), TypeSaved::String("value".to_string()));
    let buffer = strings(&["key", "ahre", "mas", "argumentos"]);
    let encoded = Getdel.run(buffer, &mut data);
    match encoded {
        Ok(_value) => {}
        Err(error) => assert_eq!(error.print_it(), "ERR wrong number of arguments for 'getdel' command"),
    }
}

#[test]
fn test_01_getset_of_an_existing_key() {
    let mut data = Database::new();
    data.insert("key".to_string(), TypeSaved::String("value".to_string()));
    let buffer = strings(&["key", "other"]);
    let encoded = Getset.run(buffer, &mut data);
    assert_eq!(encoded.unwrap(), "$5\r\nvalue\r\n".to_string());
    assert_eq!(data.get("key"), Some(&TypeSaved::String("other".to_string())));
}

#[test]
fn test_02_getset_of_a_non_existing_key() {
    let mut data = Database::new();
    let buffer = strings(&["key", "newValue"]);
    let encoded = Getset.run(buffer, &mut data);
    assert_eq!(encoded.unwrap(), "$-1\r\n".to_string());
    assert_eq!(data.get("key"), Some(&TypeSaved::String("newValue".to_string())));
}

#[test]
fn getset_test_03_wrong_number_of_arguments() {
    let mut data = Database::new();
    data.insert("key".to_string(), TypeSaved::String("value".to_string()));
    let buffer = strings(&[]);
    let encoded = Getset.run(buffer, &mut data);
    match encoded {
        Ok(_value) => {}
        Err(error) => assert_eq!(error.print_it(), "ERR wrong number of arguments for 'append' command"),
    }
}

#[test]
fn test_01_incrby_existing_key() {
    let mut data = Database::new();
    data.insert("mykey".to_string(), TypeSaved::String("10".to_string()));
    let buffer = strings(&["mykey", "3"]);
    let encoded = Incrby.run(buffer, &mut data);
    assert_eq!(encoded.unwrap(), ":13\r\n".to_string());
    assert_eq!(data.get("mykey"), Some(&TypeSaved::String("13".to_string())));
}

#[test]
fn test_02_incrby_existing_key_by_negative_integer() {
    let mut data = Database::new();
    data.insert("mykey".to_string(), TypeSaved::String("10".to_string()));
    let buffer = strings(&["mykey", "-3"]);
    let encoded = Incrby.run(buffer, &mut data);
    assert_eq!(encoded.unwrap(), ":7\r\n".to_string());
    assert_eq!(data.get("mykey"), Some(&TypeSaved::String("7".to_string())));
}

#[test]
fn test_03_incrby_existing_key_with_negative_integer_value() {
    let mut data = Database::new();
    data.insert("mykey".to_string(), TypeSaved::String("-10".to_string()));
    let buffer = strings(&["mykey", "3"]);
    let encoded = Incrby.run(buffer, &mut data);
    assert_eq!(encoded.unwrap(), ":-7\r\n".to_string());
    assert_eq!(data.get("mykey"), Some(&TypeSaved::String("-7".to_string())));
}

#[test]
fn test_04_incrby_existing_key_with_negative_integer_value_by_negative_integer() {
    let mut data = Database::new();
    data.insert("mykey".to_string(), TypeSaved::String("-10".to_string()));
    let buffer = strings(&["mykey", "-3"]);
    let encoded = Incrby.run(buffer, &mut data);
    assert_eq!(encoded.unwrap(), ":-13\r\n".to_string());
    assert_eq!(data.get("mykey"), Some(&TypeSaved::String("-13".to_string())));
}

#[test]
fn test_05_incrby_non_existing_key() {
    let mut data = Database::new();
    let buffer = strings(&["mykey", "3"]);
    let encoded = Incrby.run(buffer, &mut data);
    assert_eq!(encoded.unwrap(), ":3\r\n".to_string());
    assert_eq!(data.get("mykey"), Some(&TypeSaved::String("3".to_string())));
}

#[test]
fn test_06_incrby_existing_key_with_non_decrementable_value() {
    let mut data = Database::new();
    data.insert("mykey".to_string(), TypeSaved::String("value".to_string()));
    let buffer = strings(&["mykey", "value"]);
    let error = Incrby.run(buffer, &mut data);
    assert_eq!(error.unwrap_err().print_it(), "ERR value is not an integer or out of range".to_string());
}

#[test]
fn test_07_decrby_existing_key_by_non_integer() {
    let mut data = Database::new();
    data.insert("mykey".to_string(), TypeSaved::String("10".to_string()));
    let buffer = strings(&["mykey", "a"]);
    let error = Incrby.run(buffer, &mut data);
    assert_eq!(error.unwrap_err().print_it(), "ERR value is not an integer or out of range".to_string());
}

#[test]
fn test_01_mget_value_of_key_correct_is_success() {
    let buffer_mock_get = strings(&["key2", "asd", "key1"]);
    let mut database_mock = Database::new();
    database_mock.insert("key1".to_string(), TypeSaved::String("value1".to_string()));
    database_mock.insert("key2".to_string(), TypeSaved::String("value2".to_string()));
    let result_received = Mget.run(buffer_mock_get, &mut database_mock);
    let expected_vec = strings(&["value2", "(nil)", "value1"]);
    let expected_vec_encoded = RArray::encode(expected_vec);
    assert_eq!(expected_vec_encoded, result_received.unwrap());
}

#[test]
fn test_02_mget_does_not_maintain_order() {
    let buffer_mock_get1 = strings(&["key2", "asd", "key1"]);
    let buffer_mock_get2 = strings(&["asd", "key2", "key1"]);
    let buffer_mock_get3 = strings(&["key1", "key2", "asd"]);
    let mut database_mock = Database::new();
    database_mock.insert("key1".to_string(), TypeSaved::String("value1".to_string()));
    database_mock.insert("key2".to_string(), TypeSaved::String("value2".to_string()));

    let result_received = Mget.run(buffer_mock_get1, &mut database_mock);
    let expected_vec_encoded = RArray::encode(strings(&["value2", "(nil)", "value1"]));
    assert_eq!(expected_vec_encoded, result_received.unwrap());

    let result_received = Mget.run(buffer_mock_get2, &mut database_mock);
    let expected_vec_encoded = RArray::encode(strings(&["(nil)", "value2", "value1"]));
    assert_eq!(expected_vec_encoded, result_received.unwrap());

    let result_received = Mget.run(buffer_mock_get3, &mut database_mock);
    let expected_vec_encoded = RArray::encode(strings(&["value1", "value2", "(nil)"]));
    assert_eq!(expected_vec_encoded, result_received.unwrap());
}

#[test]
fn test_01_mset_reemplace_value_old_of_key_and_insert_more_elements() {
    let buffer_mock2 = strings(&["key1", "value1_new", "key2", "value2"]);
    let mut database_mock = Database::new();
    database_mock.insert("key1".to_string(), TypeSaved::String("value1".to_string()));
    let _ = Mset.run(buffer_mock2, &mut database_mock);

    let mut get_received_1 = String::new();
    if let TypeSaved::String(item) = database_mock.get("key1").unwrap() {
        get_received_1 = RBulkString::encode(item.to_string());
    }
    let expected = RBulkString::encode("value1_new".to_string());
    assert_eq!(expected, get_received_1);

    let mut get_received_2 = String::new();
    if let TypeSaved::String(item) = database_mock.get("key2").unwrap() {
        get_received_2 = RBulkString::encode(item.to_string());
    }
    let expected = RBulkString::encode("value2".to_string());
    assert_eq!(expected, get_received_2);
}

#[test]
fn test_02_mset_with_bad_args_return_err() {
    let buffer_mock = strings(&["key1", "value1_new", "key2"]);
    let mut database_mock = Database::new();
    let result_received = Mset.run(buffer_mock, &mut database_mock);
    let result_received_encoded = result_received.unwrap_err().get_encoded_message_complete();
    let expected_message_redis = redis_messages::arguments_invalid_to("mset");
    let expected_result: String =
        ("-".to_owned() + &expected_message_redis.get_message_complete() + "\r\n").to_string();
    assert_eq!(expected_result, result_received_encoded);
}

#[test]
fn set_test01_set_key_and_value_return_ok() {
    let buffer_vec_mock = vec!["key", "value"];
    let mut database_mock = Database::new();
    let result_received = SetCommand.run(buffer_vec_mock, &mut database_mock);
    let expected_result: String = ("+".to_owned() + &redis_messages::ok() + "\r\n").to_string();
    assert_eq!(expected_result, result_received.unwrap());
}

#[test]
fn test02_set_key_and_value_save_correctly_in_database_mock() {
    let buffer_vec_mock_set = vec!["key", "value"];
    let mut database_mock = Database::new();
    let _ = SetCommand.run(buffer_vec_mock_set, &mut database_mock);
    let mut get_received = String::new();
    if let TypeSaved::String(item) = database_mock.get("key").unwrap() {
        get_received = RBulkString::encode(item.to_string());
    }
    let expected = RBulkString::encode("value".to_string());
    assert_eq!(expected, get_received);
}

#[test]
fn test03_set_key_and_value_but_get_another_key_return_none() {
    let buffer_vec_mock = vec!["key", "value"];
    let mut database_mock = Database::new();
    let _ = SetCommand.run(buffer_vec_mock, &mut database_mock);
    let mut get_received = String::new();
    let nil = TypeSaved::String("(nil)".to_string());
    if let TypeSaved::String(item) = database_mock.get("key2").unwrap_or(&nil) {
        get_received = RBulkString::encode(item.to_string());
    }
    let expected = RBulkString::encode("(nil)".to_string());
    assert_eq!(expected, get_received);
}

#[test]
fn test04_set_without_value_and_key_return_err_syntax() {
    let buffer_vec_mock = vec!["set", "set", "set", "set"];
    let mut database_mock = Database::new();
    let result_received = SetCommand.run(buffer_vec_mock, &mut database_mock);
    let result_received_encoded = result_received.unwrap_err().get_encoded_message_complete();
    let expected_message_redis = redis_messages::syntax_error();
    let expected_result =
        ("-".to_owned() + &expected_message_redis.get_message_complete() + "\r\n").to_string();
    assert_eq!(expected_result, result_received_encoded);
}

#[test]
fn test_01_strlen_existing_key() {
    let mut data = Database::new();
    data.insert("mykey".to_string(), TypeSaved::String("somevalue".to_string()));
    let buffer = strings(&["mykey"]);
    let encoded = Strlen.run(buffer, &mut data);
    assert_eq!(encoded.unwrap(), ":9\r\n".to_string());
}

#[test]
fn test_02_srlen_non_existing_key() {
    let mut data = Database::new();
    let buffer = strings(&["mykey"]);
    let encoded = Strlen.run(buffer, &mut data);
    assert_eq!(encoded.unwrap(), ":0\r\n".to_string());
}
