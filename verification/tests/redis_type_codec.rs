use rusteze::redis_type::{Error, RArray, RBulkString, RError, RInteger, RSimpleString, RedisType};

#[test]
fn redis_type_test01_encoding_of_a_simple_string() {
    let simple_string = String::from("word");
    let encoded = RSimpleString::encode(simple_string);
    assert_eq!(encoded, "+word\r\n".to_string());
}

#[test]
fn redis_type_test02_decoding_of_a_simple_string() {
    let mut encoded = "+word\r\n".to_string();
    encoded.remove(0);
    let simple_string = RSimpleString::decode(&mut encoded);
    assert_eq!(simple_string.unwrap(), "word".to_string());
    assert_eq!(encoded, "".to_string());
}

#[test]
fn redis_type_test03_encoding_and_decoding_of_an_integer() {
    let integer: isize = 1234;
    let mut encoded = RInteger::encode(integer);
    assert_eq!(encoded, ":1234\r\n".to_string());
    encoded.remove(0);
    let integer_decoded = RInteger::decode(&mut encoded);
    assert_eq!(integer_decoded.unwrap(), 1234);
    assert_eq!(encoded, "".to_string());
}

#[test]
fn redis_type_test04_encoding_and_decoding_of_a_bulk_string() {
    let bulk = String::from("Hello world");
    let mut encoded = RBulkString::encode(bulk);
    assert_eq!(encoded, "$11\r\nHello world\r\n".to_string());
    encoded.remove(0);
    let integer_decoded = RBulkString::decode(&mut encoded);
    assert_eq!(integer_decoded.unwrap(), "Hello world".to_string());
    assert_eq!(encoded, "".to_string());
}

#[test]
fn redis_type_test05_encoding_and_decoding_of_an_error() {
    let error = Error::new("ERR".to_string(), "esto es un error generico".to_string());
    let mut encoded = RError::encode(error);
    assert_eq!(encoded, "-ERR esto es un error generico\r\n".to_string());
    encoded.remove(0);
    let error_decoded = RError::decode(&mut encoded);
    assert_eq!(error_decoded.unwrap().print_it(), "ERR esto es un error generico".to_string());
    assert_eq!(encoded, "".to_string());
}

#[test]
fn redis_type_test06_bad_decoding_of_simple_string_throws_a_parsing_error() {
    let mut encoded = "Good Morning".to_string();
    match RSimpleString::decode(&mut encoded) {
        Ok(_string) => {}
        Err(error) => assert_eq!(error.print_it(), "ERR_PARSE Failed to parse redis simple string".to_string()),
    }
}

#[test]
fn redis_type_test07_bad_decoding_of_integer_throws_a_parsing_error() {
    let mut encoded = "123a\r\n".to_string();
    match RInteger::decode(&mut encoded) {
        Ok(_string) => {}
        Err(error) => assert_eq!(error.print_it(), "ERR_PARSE Failed to parse redis simple string".to_string()),
    }
    let mut encoded = "123".to_string();
    match RInteger::decode(&mut encoded) {
        Ok(_string) => {}
        Err(error) => assert_eq!(error.print_it(), "ERR_PARSE Failed to parse redis simple string".to_string()),
    }
}

#[test]
fn redis_type_test08_bad_decoding_of_bulk_string_throws_a_parsing_error() {
    let mut encoded = "$Good Morning".to_string();
    match RBulkString::decode(&mut encoded) {
        Ok(_string) => {}
        Err(error) => assert_eq!(error.print_it(), "ERR_PARSE Failed to parse redis simple string".to_string()),
    }
    let mut encoded = "$Good Morning\r\n".to_string();
    match RBulkString::decode(&mut encoded) {
        Ok(_string) => {}
        Err(error) => assert_eq!(error.print_it(), "ERR_PARSE Failed to parse redis simple string".to_string()),
    }
    let mut encoded = "$5\r\nGood Morning\r\n".to_string();
    match RBulkString::decode(&mut encoded) {
        Ok(_string) => {}
        Err(error) => assert_eq!(error.print_it(), "ERR_PARSE Failed to parse redis simple string".to_string()),
    }
}

#[test]
fn redis_type_test10_set_key_value_simulation() {
    let input = "SET ping pong";
    let mut v: Vec<&str> = input.rsplit(' ').collect();
    let command = v.pop().unwrap().to_string();
    let key = v.pop().unwrap().to_string();
    let value = v.pop().unwrap().to_string();
    assert_eq!(command, "SET".to_string());
    assert_eq!(key, "ping".to_string());
    assert_eq!(value, "pong".to_string());
    let mut encoded = RBulkString::encode(command);
    encoded.push_str(&RBulkString::encode(key));
    encoded.push_str(&RBulkString::encode(value));
    assert_eq!(encoded, "$3\r\nSET\r\n$4\r\nping\r\n$4\r\npong\r\n".to_string());
    let mut bulks: Vec<String> = Vec::new();
    for _i in 0..3 {
        if encoded.remove(0) == '$' {
            let bulk = RBulkString::decode(&mut encoded);
            bulks.push(bulk.unwrap());
        }
    }
    assert_eq!(bulks.pop().unwrap(), "pong".to_string());
    assert_eq!(bulks.pop().unwrap(), "ping".to_string());
    assert_eq!(bulks.pop().unwrap(), "SET".to_string());
    assert!(encoded.is_empty());
}

#[test]
fn test12_encoding_of_array() {
    let vec: Vec<String> = vec!["foo".to_string(), "bar".to_string()];
    let encoded = RArray::encode(vec);
    assert_eq!(encoded, "*2\r\n$3\r\nfoo\r\n$3\r\nbar\r\n".to_string());
}

#[test]
fn test13_encoding_of_array() {
    let vec1: Vec<String> = vec!["foo".to_string(), "bar".to_string()];
    let vec2 = vec1.clone();
    let mut encoded: String = RArray::encode(vec1);
    encoded.remove(0);
    let decoded = RArray::decode(&mut encoded).unwrap();
    for i in 0..(vec2.len()) {
        assert_eq!(decoded[i], vec2[i]);
    }
}

#[test]
fn netcat_line_with_its_line_end_becomes_an_array() {
    let encoded = rusteze::native_types::redis_type::encode_netcat_input("set key value\r\n".to_string());
    assert_eq!(encoded.unwrap(), "*3\r\n$3\r\nset\r\n$3\r\nkey\r\n$5\r\nvalue\r\n".to_string());
    let encoded = rusteze::native_types::redis_type::encode_netcat_input("get key\n".to_string());
    assert_eq!(encoded.unwrap(), "*2\r\n$3\r\nget\r\n$3\r\nkey\r\n".to_string());
    let encoded = rusteze::native_types::redis_type::encode_netcat_input("dbsize".to_string());
    assert_eq!(encoded.unwrap(), "*1\r\n$6\r\ndbsize\r\n".to_string());
}

#[test]
fn netcat_line_with_a_long_first_word_is_refused() {
    let line = "a".repeat(30) + " x\r\n";
    let error = rusteze::native_types::redis_type::encode_netcat_input(line).unwrap_err();
    assert_eq!(error.print_it(), "ERR There is no command which name has more than 30 characters\r\n");
}
