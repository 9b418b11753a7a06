use rusteze::native_types::{ErrorStruct, NativeTypes, RArray, RBulkString, RError, RInteger, RSimpleString, RedisType};

#[test]
fn native_types_test01_encoding_of_a_simple_string() {
    let simple_string = NativeTypes::new_simple_string("word");
    assert_eq!(simple_string.get().unwrap(), "word".to_string());
    let encoded = simple_string.encode().unwrap();
    assert_eq!(encoded, "+word\r\n".to_string());
}

#[test]
fn native_types_test02_decoding_of_a_simple_string() {
    let encoded = "+word\r\n".to_string();
    let (simple_string, rest_of) = NativeTypes::new(encoded);
    assert_eq!(simple_string.get().unwrap(), "word".to_string());
    assert_eq!(rest_of, "".to_string());
}

#[test]
fn native_types_test03_encoding_and_decoding_of_an_integer() {
    let integer = NativeTypes::new_integer("1234");
    assert_eq!(integer.get().unwrap(), "1234".to_string());
    let encoded = integer.encode().unwrap();
    assert_eq!(encoded, ":1234\r\n".to_string());
    let (integer_decoded, rest_of) = NativeTypes::new(encoded);
    assert_eq!(integer_decoded.get().unwrap(), "1234".to_string());
    assert_eq!(rest_of, "".to_string());
}

#[test]
fn native_types_test04_encoding_and_decoding_of_a_bulk_string() {
    let bulk_string = NativeTypes::new_bulk_string("Hello world");
    assert_eq!(bulk_string.get().unwrap(), "Hello world".to_string());
    let encoded = bulk_string.encode().unwrap();
    assert_eq!(encoded, "$11\r\nHello world\r\n".to_string());
    let (bulk_string_decoded, rest_of) = NativeTypes::new(encoded);
    assert_eq!(bulk_string_decoded.get().unwrap(), "Hello world".to_string());
    assert_eq!(rest_of, "".to_string());
}

#[test]
fn native_types_test05_encoding_and_decoding_of_an_error() {
    let error = NativeTypes::new_error("ERR esto es un error generico");
    assert_eq!(error.get().unwrap(), "ERR esto es un error generico".to_string());
    let encoded = error.encode().unwrap();
    assert_eq!(encoded, "-ERR esto es un error generico\r\n".to_string());
    let (error_decoded, rest_of) = NativeTypes::new(encoded);
    assert_eq!(error_decoded.get().unwrap(), "ERR esto es un error generico".to_string());
    assert_eq!(rest_of, "".to_string());
}

#[test]
fn native_types_test06_bad_decoding_of_simple_string_throws_a_parsing_error() {
    let encoded = "+Good Morning".to_string();
    let (should_be_error, _) = NativeTypes::new(encoded);
    assert_eq!(should_be_error.get().unwrap(), "ERR_PARSE Failed to parse redis simple string".to_string());
}

#[test]
fn native_types_test07_bad_decoding_of_integer_throws_a_parsing_error() {
    let encoded = ":123a\r\n".to_string();
    let (should_be_error, _) = NativeTypes::new(encoded);
    assert_eq!(should_be_error.get().unwrap(), "ERR_PARSE Failed to parse redis integer".to_string());
    let encoded = ":123".to_string();
    let (should_be_error, _) = NativeTypes::new(encoded);
    assert_eq!(should_be_error.get().unwrap(), "ERR_PARSE Failed to parse redis integer".to_string());
}

#[test]
fn native_types_test08_bad_decoding_of_bulk_string_throws_a_parsing_error() {
    let encoded = "$Good Morning".to_string();
    let (should_be_error, _) = NativeTypes::new(encoded);
    assert_eq!(should_be_error.get().unwrap(), "ERR_PARSE Failed to parse redis bulk string".to_string());
    let encoded = "$Good Morning\r\n".to_string();
    let (should_be_error, _) = NativeTypes::new(encoded);
    assert_eq!(should_be_error.get().unwrap(), "ERR_PARSE Failed to parse redis bulk string".to_string());
    let encoded = "$5\r\nGood Morning\r\n".to_string();
    let (should_be_error, _) = NativeTypes::new(encoded);
    assert_eq!(should_be_error.get().unwrap(), "ERR_PARSE Failed to parse redis bulk string".to_string());
}

#[test]
fn test09_unknown_redis_char_type_throws_a_unknown_type_error() {
    let encoded = "%Good Morning".to_string();
    let (should_be_error, _) = NativeTypes::new(encoded);
    assert_eq!(
        should_be_error.get().unwrap(),
        "ERR_UNKNOWN_TYPE Failed to match the first byte. Unknown Redis type".to_string()
    );
}

#[test]
fn native_types_test10_set_key_value_simulation() {
    let input = "SET ping pong";
    let mut v: Vec<&str> = input.rsplit(' ').collect();
    let command = v.pop().unwrap();
    let key = v.pop().unwrap();
    let value = v.pop().unwrap();
    assert_eq!(command, "SET");
    assert_eq!(key, "ping");
    assert_eq!(value, "pong");
    let bulk_command = NativeTypes::new_bulk_string(command);
    let bulk_key = NativeTypes::new_bulk_string(key);
    let bulk_value = NativeTypes::new_bulk_string(value);
    let mut encoded = bulk_command.encode().unwrap();
    encoded.push_str(&bulk_key.encode().unwrap());
    encoded.push_str(&bulk_value.encode().unwrap());
    assert_eq!(encoded, "$3\r\nSET\r\n$4\r\nping\r\n$4\r\npong\r\n".to_string());
    let (decoded_command, encoded) = NativeTypes::new(encoded);
    let (decoded_key, encoded) = NativeTypes::new(encoded);
    let (decoded_value, encoded) = NativeTypes::new(encoded);
    assert_eq!(decoded_command.get().unwrap(), "SET".to_string());
    assert_eq!(decoded_key.get().unwrap(), "ping".to_string());
    assert_eq!(decoded_value.get().unwrap(), "pong".to_string());
    assert!(encoded.is_empty());
}

#[test]
fn test01_array_encoding() {
    let vec: Vec<String> = vec!["foo".to_string(), "bar".to_string()];
    let encoded = RArray::encode(vec);
    assert_eq!(encoded, "*2\r\n$3\r\nfoo\r\n$3\r\nbar\r\n".to_string());
}

#[test]
fn test02_array_decoding() {
    let vec1: Vec<String> = vec!["foo".to_string(), "bar".to_string()];
    let vec2 = vec1.clone();
    let mut encoded: String = RArray::encode(vec1);
    encoded.remove(0);
    let decoded = RArray::decode(&mut encoded).unwrap();
    for i in 0..(vec2.len()) {
        assert_eq!(decoded[i], vec2[i]);
    }
}

#[test]
fn test03_empty_array_encoding() {
    let vec: Vec<String> = vec![];
    let encoded = RArray::encode(vec);
    assert_eq!(encoded, "*0\r\n".to_string());
}

#[test]
fn test04_empty_array_decoding() {
    let vec1: Vec<String> = vec![];
    let mut encoded: String = RArray::encode(vec1);
    encoded.remove(0);
    let decoded = RArray::decode(&mut encoded);
    assert_eq!(decoded.unwrap_err().print_it(), "ERR_EMPTY (empty array)".to_string());
}

#[test]
fn test05_set_key_value_simulation() {
    let input: String = "SET ping pong".to_string();
    let v: Vec<String> = input.split(' ').map(str::to_string).collect();
    let mut encoded: String = RArray::encode(v);
    assert_eq!(encoded, "*3\r\n$3\r\nSET\r\n$4\r\nping\r\n$4\r\npong\r\n".to_string());
    encoded.remove(0);
    let mut decoded = RArray::decode(&mut encoded).unwrap();
    assert_eq!(decoded.remove(0), "SET".to_string());
    assert_eq!(decoded.remove(0), "ping".to_string());
    assert_eq!(decoded.remove(0), "pong".to_string());
    assert!(encoded.is_empty());
}

#[test]
fn bulk_string_test04_encoding_and_decoding_of_a_bulk_string() {
    let bulk = String::from("Hello world");
    let encoded = RBulkString::encode(bulk);
    assert_eq!(encoded, "$11\r\nHello world\r\n".to_string());
}

#[test]
fn test02_bulk_string_decoding() {
    let mut encoded = RBulkString::encode(String::from("Hello world"));
    encoded.remove(0);
    let decoded = RBulkString::decode(&mut encoded);
    assert_eq!(decoded.unwrap(), "Hello world".to_string());
    assert_eq!(encoded, "".to_string());
}

#[test]
fn test03_bulk_string_decoding_empties_original_string() {
    let mut encoded = RBulkString::encode(String::from("Hello world"));
    encoded.remove(0);
    let _decoded = RBulkString::decode(&mut encoded);
    assert_eq!(encoded, "".to_string());
}

#[test]
fn bulk_string_test08_bad_decoding_of_bulk_string_throws_a_parsing_error() {
    let mut encoded = "$Good Morning".to_string();
    match RBulkString::decode(&mut encoded) {
        Ok(_string) => {}
        Err(error) => assert_eq!(error.print_it(), "ERR_PARSE Failed to parse redis simple string".to_string()),
    }
    let mut encoded = "$Good Morning\r\n".to_string();
    match RBulkString::decode(&mut encoded) {
        Ok(_string) => {}
        Err(error) => assert_eq!(error.print_it(), "ERR_PARSE Failed to parse redis bulk string".to_string()),
    }
    let mut encoded = "$5\r\nGood Morning\r\n".to_string();
    match RBulkString::decode(&mut encoded) {
        Ok(_string) => {}
        Err(error) => assert_eq!(error.print_it(), "ERR_PARSE Failed to parse redis bulk string".to_string()),
    }
}

#[test]
fn bulk_string_test10_set_key_value_simulation() {
    let input = "SET ping pong";
    let mut v: Vec<&str> = input.rsplit(' ').collect();
    let command = v.pop().unwrap().to_string();
    let key = v.pop().unwrap().to_string();
    let value = v.pop().unwrap().to_string();
    assert_eq!(command, "SET".to_string());
    assert_eq!(key, "ping".to_string());
    assert_eq!(value, "pong".to_string());
    let mut encoded = RBulkString::encode(command);
    encoded.push_str(&RBulkString::encode(key));
    encoded.push_str(&RBulkString::encode(value));
    assert_eq!(encoded, "$3\r\nSET\r\n$4\r\nping\r\n$4\r\npong\r\n".to_string());
    let mut bulks: Vec<String> = Vec::new();
    for _i in 0..3 {
        if encoded.remove(0) == '$' {
            let bulk = RBulkString::decode(&mut encoded);
            bulks.push(bulk.unwrap());
        }
    }
    assert_eq!(bulks.pop().unwrap(), "pong".to_string());
    assert_eq!(bulks.pop().unwrap(), "ping".to_string());
    assert_eq!(bulks.pop().unwrap(), "SET".to_string());
    assert!(encoded.is_empty());
}

#[test]
fn test01_simple_string_encoding() {
    let simple_string = String::from("word");
    let encoded = RSimpleString::encode(simple_string);
    assert_eq!(encoded, "+word\r\n".to_string());
}

#[test]
fn test02_simple_string_decoding() {
    let mut encoded = "+word\r\n".to_string();
    encoded.remove(0);
    let simple_string = RSimpleString::decode(&mut encoded);
    assert_eq!(simple_string.unwrap(), "word".to_string());
}

#[test]
fn test_01_encoding_and_decoding_of_an_integer() {
    let integer: isize = 1234;
    let mut encoded = RInteger::encode(integer);
    assert_eq!(encoded, ":1234\r\n".to_string());
    encoded.remove(0);
    let integer_decoded = RInteger::decode(&mut encoded);
    assert_eq!(integer_decoded.unwrap(), 1234);
}

#[test]
fn test_02_bad_decoding_of_integer_throws_a_parsing_error() {
    let mut encoded = "+123a\r\n".to_string();
    encoded.remove(0);
    match RInteger::decode(&mut encoded) {
        Ok(_string) => {}
        Err(error) => assert_eq!(error.print_it(), "ERR_PARSE Failed to parse redis integer".to_string()),
    }
}

#[test]
fn error_test05_encoding_and_decoding_of_an_error() {
    let error = ErrorStruct::new("ERR".to_string(), "esto es un error generico".to_string());
    let mut encoded = RError::encode(error);
    assert_eq!(encoded, "-ERR esto es un error generico\r\n".to_string());
    encoded.remove(0);
    let error_decoded = RError::decode(&mut encoded);
    assert_eq!(error_decoded.unwrap().print_it(), "ERR esto es un error generico".to_string());
}
