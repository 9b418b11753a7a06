use std::collections::VecDeque;

use rusteze::commands::sets::sadd::Sadd;
use rusteze::commands::sets::sismember::Sismember;
use rusteze::commands::strings::get::Get;
use rusteze::commands::strings::set::SetCommand;
use rusteze::database::{Database, TypeSaved};
use rusteze::native_types::{RBulkString, RInteger, RedisType};
use rusteze::redis_config::RedisConfig;
use rusteze::string_map::StringSet;

fn strings(words: &[&str]) -> Vec<String> {
    words.iter().map(|w| w.to_string()).collect()
}

fn config() -> RedisConfig {
    RedisConfig::new(String::new(), String::new(), String::from("log.txt"), 0)
}

#[test]
fn test_01_insert_a_key() {
    let mut database = Database::new();
    let value = TypeSaved::String(String::from("hola"));
    database.insert("key".to_string(), value);
    let got = database.get("key");
    match got.unwrap() {
        TypeSaved::String(value) => {
            assert_eq!(value, "hola");
        }
        _ => panic!(),
    }
}

#[test]
fn test_02_remove_a_key() {
    let mut database = Database::new();
    let value = TypeSaved::String(String::from("hola"));
    database.insert("key".to_string(), value);
    database.remove("key");
    let got = database.get("key");
    assert_eq!(got, None);
}

#[test]
fn test_03_database_contains_key() {
    let mut database = Database::new();
    assert!(!database.contains_key("key"));
    let value = TypeSaved::String(String::from("hola"));
    database.insert("key".to_string(), value);
    assert!(database.contains_key("key"));
}

#[test]
fn test_04_set_timeout_for_existing_key() {
    let mut database = Database::new();
    let value = TypeSaved::String(String::from("hola"));
    database.insert("key".to_string(), value);
    database.set_ttl("key", 10).unwrap();
    assert_eq!(database.ttl("key"), Some(9));
}

#[test]
fn test_05_set_timeout_for_non_existing_key() {
    let mut database = Database::new();
    match database.set_ttl("key", 10) {
        Err(should_throw_error) => assert_eq!(
            should_throw_error.print_it(),
            "KEYNOTFOUND Session does not exist or has timed out".to_string()
        ),
        Ok(()) => {}
    }
}

#[test]
fn test_06_set_timeout_for_key_and_let_it_persist() {
    let mut database = Database::new();
    let value = TypeSaved::String(String::from("hola"));
    database.insert("key".to_string(), value);
    database.set_ttl("key", 10).unwrap();
    assert_eq!(database.persist("key"), Some(9));
    assert_eq!(database.ttl("key"), None);
}

#[test]
fn test_13_restore_set_values_from_file() {
    let mut database = Database::new();
    database.set_redis_config(config());
    Sadd.run(strings(&["key", "value1", "value2"]), &mut database).unwrap();
    let dump = database.take_snapshot().unwrap();

    let mut restored_database = Database::new_from(config(), dump).unwrap();
    let result_received = Sismember.run(strings(&["key", "value1"]), &mut restored_database);
    assert_eq!(RInteger::encode(1), result_received.unwrap());
    assert_eq!(
        Sismember.run(strings(&["key", "value2"]), &mut restored_database).unwrap(),
        RInteger::encode(1)
    );
}

#[test]
fn test_15_persist_different_values_at_file() {
    let mut saved_database = Database::new();
    saved_database.set_redis_config(config());
    SetCommand.run(vec!["key1", "value1"], &mut saved_database).unwrap();
    let list: VecDeque<String> = strings(&["value1", "value2", "value3", "value4"]).into_iter().collect();
    saved_database.insert("key2".to_string(), TypeSaved::List(list));
    Sadd.run(strings(&["key3", "value1"]), &mut saved_database).unwrap();
    let dump = saved_database.take_snapshot().unwrap();

    let mut restored_database = Database::new_from(config(), dump).unwrap();

    let obtained_value = Get.run(strings(&["key1"]), &mut restored_database).unwrap();
    assert_eq!(obtained_value, RBulkString::encode("value1".to_string()));

    match restored_database.get("key2") {
        Some(TypeSaved::List(values)) => {
            assert_eq!(values.len(), 4);
            assert_eq!(RBulkString::encode(values[0].clone()), "$6\r\nvalue1\r\n".to_string());
            assert_eq!(RBulkString::encode(values[3].clone()), "$6\r\nvalue4\r\n".to_string());
            assert_eq!(RBulkString::encode(values[1].clone()), "$6\r\nvalue2\r\n".to_string());
            assert_eq!(RBulkString::encode(values[2].clone()), "$6\r\nvalue3\r\n".to_string());
        }
        _ => panic!(),
    }

    assert_eq!(
        Sismember.run(strings(&["key3", "value1"]), &mut restored_database).unwrap(),
        RInteger::encode(1)
    );
}

#[test]
fn snapshot_writes_each_key_as_four_fields() {
    let mut database = Database::new();
    database.set_redis_config(config());
    database.insert("k".to_string(), TypeSaved::String("v".to_string()));
    let dump = database.snapshot_at(0);
    assert_eq!(dump, ":-1\r\n:0\r\n+k\r\n+v\r\n".to_string());
}

#[test]
fn snapshot_of_a_set_and_a_list_uses_arrays() {
    let mut database = Database::new();
    let mut set = StringSet::new();
    set.insert("a".to_string());
    database.insert("s".to_string(), TypeSaved::Sets(set));
    let list: VecDeque<String> = strings(&["x", "y"]).into_iter().collect();
    database.insert("l".to_string(), TypeSaved::List(list));
    let dump = database.snapshot_at(0);
    assert_eq!(
        dump,
        ":-1\r\n:2\r\n+s\r\n*1\r\n$1\r\na\r\n:-1\r\n:1\r\n+l\r\n*2\r\n$1\r\nx\r\n$1\r\ny\r\n".to_string()
    );
}

#[test]
fn snapshot_skips_expired_keys_and_writes_seconds_left() {
    let mut database = Database::new();
    database.insert("gone".to_string(), TypeSaved::String("v".to_string()));
    database.insert("kept".to_string(), TypeSaved::String("w".to_string()));
    database.set_ttl_at("gone", 1, 0).unwrap();
    database.set_ttl_at("kept", 100, 0).unwrap();
    let dump = database.snapshot_at(50_000_000_000);
    assert_eq!(dump, ":50\r\n:0\r\n+kept\r\n+w\r\n".to_string());
}

#[test]
fn snapshot_needs_a_configuration() {
    let database = Database::new();
    let error = database.take_snapshot_at(0).unwrap_err();
    assert_eq!(error.print_it(), "INSTAPANIC no redis config available".to_string());
}

#[test]
fn restore_gives_back_the_time_left() {
    let dump = ":50\r\n:0\r\n+kept\r\n+w\r\n".to_string();
    let mut database = Database::new_from_at(config(), dump, 1_000_000_000).unwrap();
    assert_eq!(database.ttl_at("kept", 1_000_000_000), Some(50));
    assert_eq!(database.get_at("kept", 1_000_000_000), Some(&TypeSaved::String("w".to_string())));
}

#[test]
fn restore_refuses_an_unknown_kind() {
    let dump = ":-1\r\n:7\r\n+k\r\n+v\r\n".to_string();
    let error = Database::new_from_at(config(), dump, 0).err().unwrap();
    assert_eq!(error.print_it(), "INSTAPANIC unknown case found at dump".to_string());
}

#[test]
fn restore_refuses_a_field_of_another_type() {
    let dump = "+-1\r\n".to_string();
    let error = Database::new_from_at(config(), dump, 0).err().unwrap();
    assert_eq!(error.print_it(), "INSTAPANIC unexpected char found at dump".to_string());
}

#[test]
fn restore_refuses_a_cut_dump() {
    let dump = ":-1\r\n:0\r\n".to_string();
    let error = Database::new_from_at(config(), dump, 0).err().unwrap();
    assert_eq!(error.print_it(), "ERR Something interrupted file read".to_string());
}

#[test]
fn restore_refuses_an_empty_list() {
    let dump = ":-1\r\n:1\r\n+l\r\n*0\r\n".to_string();
    let error = Database::new_from_at(config(), dump, 0).err().unwrap();
    assert_eq!(error.print_it(), "ERR_EMPTY (empty array)".to_string());
}

#[test]
fn restore_of_an_empty_dump_is_an_empty_database() {
    let database = Database::new_from_at(config(), String::new(), 0).unwrap();
    assert_eq!(database.size(), 0);
}

#[test]
fn random_key_is_a_key() {
    let mut database = Database::new();
    assert_eq!(database.random_key(), None);
    database.insert("only".to_string(), TypeSaved::String("v".to_string()));
    assert_eq!(database.random_key(), Some("only".to_string()));
}

#[test]
fn expired_key_is_gone_after_a_touch() {
    let mut database = Database::new();
    database.insert("k".to_string(), TypeSaved::String("v".to_string()));
    database.set_ttl_at("k", 1, 0).unwrap();
    assert_eq!(database.touch_at("k", 2_000_000_000).unwrap(), true);
    assert!(!database.contains_key_at("k", 2_000_000_000));
}

#[test]
fn restore_keeps_a_lone_carriage_return() {
    let mut database = Database::new();
    database.set_redis_config(config());
    database.insert("a\rb".to_string(), TypeSaved::String("x\r".to_string()));
    let mut list = VecDeque::new();
    list.push_back("p\rq".to_string());
    list.push_back("\r".to_string());
    database.insert("l".to_string(), TypeSaved::List(list.clone()));
    let dump = database.take_snapshot_at(0).unwrap();
    assert_eq!(dump, ":-1\r\n:0\r\n+a\rb\r\n+x\r\r\n:-1\r\n:1\r\n+l\r\n*2\r\n$3\r\np\rq\r\n$1\r\n\r\r\n".to_string());
    let mut restored = Database::new_from_at(config(), dump, 0).unwrap();
    assert_eq!(restored.size(), 2);
    assert_eq!(restored.get_at("a\rb", 0), Some(&TypeSaved::String("x\r".to_string())));
    assert_eq!(restored.get_at("l", 0), Some(&TypeSaved::List(list)));
}

#[test]
fn restore_reads_lines_ended_by_a_line_feed_alone() {
    let dump = ":-1\n:0\n+k\n+v".to_string();
    let mut database = Database::new_from_at(config(), dump, 0).unwrap();
    assert_eq!(database.get_at("k", 0), Some(&TypeSaved::String("v".to_string())));
}

#[test]
fn restore_refuses_an_empty_line_and_a_wrong_size() {
    let dump = ":-1\r\n\r\n".to_string();
    let error = Database::new_from_at(config(), dump, 0).err().unwrap();
    assert_eq!(error.print_it(), "ERR Something interrupted file read".to_string());
    let dump = ":-1\r\n:1\r\n+l\r\n*1\r\n$4\r\nabc\r\n".to_string();
    let error = Database::new_from_at(config(), dump, 0).err().unwrap();
    assert_eq!(error.print_it(), "ERR_PARSE Failed to parse redis bulk string".to_string());
    let dump = ":x\r\n".to_string();
    let error = Database::new_from_at(config(), dump, 0).err().unwrap();
    assert_eq!(error.print_it(), "ERR_PARSE Failed to parse redis integer".to_string());
}
