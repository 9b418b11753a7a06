use rusteze::commands::server::config::Config;
use rusteze::commands::sets::sadd::Sadd;
use rusteze::commands::sets::sismember::Sismember;
use rusteze::commands::strings::append::Append;
use rusteze::commands::strings::decrby::Decrby;
use rusteze::commands::strings::get::Get;
use rusteze::commands::strings::getdel::Getdel;
use rusteze::commands::strings::getset::Getset;
use rusteze::commands::strings::incrby::Incrby;
use rusteze::commands::strings::mset::Mset;
use rusteze::commands::strings::strlen::Strlen;
use rusteze::database::{Database, TypeSaved};
use rusteze::server_redis_attributes::ServerRedisAttributes;

fn strings(words: &[&str]) -> Vec<String> {
    words.iter().map(|w| w.to_string()).collect()
}

#[test]
fn append_reply_is_what_strlen_gives() {
    let mut data = Database::new();
    data.insert("k".to_string(), TypeSaved::String("año".to_string()));
    let appended = Append.run(strings(&["k", "ñu"]), &mut data).unwrap();
    let length = Strlen.run(strings(&["k"]), &mut data).unwrap();
    assert_eq!(appended, ":7\r\n");
    assert_eq!(appended, length);
}

#[test]
fn incrby_then_decrby_gives_the_number_back() {
    let mut data = Database::new();
    data.insert("k".to_string(), TypeSaved::String("+0041".to_string()));
    assert_eq!(Incrby.run(strings(&["k", "9"]), &mut data).unwrap(), ":50\r\n");
    assert_eq!(Decrby.run(strings(&["k", "9"]), &mut data).unwrap(), ":41\r\n");
    assert_eq!(data.get("k"), Some(&TypeSaved::String("41".to_string())));
}

#[test]
fn getset_then_get_gives_the_new_string() {
    let mut data = Database::new();
    data.insert("k".to_string(), TypeSaved::String("old".to_string()));
    assert_eq!(Getset.run(strings(&["k", "new"]), &mut data).unwrap(), "$3\r\nold\r\n");
    assert_eq!(Get.run(strings(&["k"]), &mut data).unwrap(), "$3\r\nnew\r\n");
}

#[test]
fn getdel_then_get_gives_nil() {
    let mut data = Database::new();
    data.insert("k".to_string(), TypeSaved::String("v".to_string()));
    assert_eq!(Getdel.run(strings(&["k"]), &mut data).unwrap(), "$1\r\nv\r\n");
    assert_eq!(Get.run(strings(&["k"]), &mut data).unwrap(), "$-1\r\n");
}

#[test]
fn sadd_then_sismember_finds_each_member() {
    let mut data = Database::new();
    Sadd.run(strings(&["s", "a", "b", "a"]), &mut data).unwrap();
    assert_eq!(Sismember.run(strings(&["s", "a"]), &mut data).unwrap(), ":1\r\n");
    assert_eq!(Sismember.run(strings(&["s", "b"]), &mut data).unwrap(), ":1\r\n");
    assert_eq!(Sismember.run(strings(&["s", "c"]), &mut data).unwrap(), ":0\r\n");
}

#[test]
fn config_set_then_get_gives_the_new_setting() {
    let mut s = ServerRedisAttributes {
        ip: "127.0.0.1".to_string(),
        port: "6379".to_string(),
        timeout: 0,
        logfile_name: "logs.txt".to_string(),
        dbfile_name: "dump.rdb".to_string(),
        verbose: 0,
        executable: String::new(),
        clients: Vec::new(),
        shutting_down: false,
        monitor_notes: Vec::new(),
    };
    Config.run(strings(&["set", "logfile", "other.log"]), &mut s).unwrap();
    assert_eq!(
        Config.run(strings(&["get", "logfile"]), &mut s).unwrap(),
        "*2\r\n$7\r\nlogfile\r\n$9\r\nother.log\r\n"
    );
    Config.run(strings(&["set", "dbfilename", "x.rdb"]), &mut s).unwrap();
    assert_eq!(
        Config.run(strings(&["get", "dbfilename"]), &mut s).unwrap(),
        "*2\r\n$10\r\ndbfilename\r\n$5\r\nx.rdb\r\n"
    );
}

#[test]
fn mset_then_get_gives_the_last_value_of_each_key() {
    let mut data = Database::new();
    Mset.run(strings(&["a", "1", "b", "2", "a", "3"]), &mut data).unwrap();
    assert_eq!(Get.run(strings(&["a"]), &mut data).unwrap(), "$1\r\n3\r\n");
    assert_eq!(Get.run(strings(&["b"]), &mut data).unwrap(), "$1\r\n2\r\n");
}
