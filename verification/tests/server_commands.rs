use rusteze::commands::server::clear_client::ClearClient;
use rusteze::commands::server::config::Config;
use rusteze::commands::server::dbsize::Dbsize;
use rusteze::commands::server::flushdb::FlushDb;
use rusteze::commands::server::info_db::InfoDb;
use rusteze::commands::server::info_sv::InfoSv;
use rusteze::commands::server::monitor::Monitor;
use rusteze::commands::server::notify_monitors::NotifyMonitors;
use rusteze::commands::server::save::Save;
use rusteze::commands::server::shutdown::Shutdown;
use rusteze::commands::server::take_snapshot::Save as QuickSave;
use rusteze::database::{Database, TypeSaved};
use rusteze::file_manager::FileManager;
use rusteze::logs::log_center::FileHandler;
use rusteze::messages::redis_messages;
use rusteze::redis_config::RedisConfig;
use rusteze::server_redis_attributes::{ClientFields, ServerRedisAttributes, Status};

fn strings(words: &[&str]) -> Vec<String> {
    words.iter().map(|w| w.to_string()).collect()
}

fn server() -> ServerRedisAttributes {
    ServerRedisAttributes {
        ip: "127.0.0.1".to_string(),
        port: "6379".to_string(),
        timeout: 300,
        logfile_name: "logs.txt".to_string(),
        dbfile_name: "dump.rdb".to_string(),
        verbose: 1,
        executable: "executable: redis".to_string(),
        clients: strings(&["a:1", "b:2", "a:1"]),
        shutting_down: false,
        monitor_notes: Vec::new(),
    }
}

#[test]
fn config_get_reads_each_setting() {
    let mut s = server();
    assert_eq!(Config.run(strings(&["get", "port"]), &mut s).unwrap(), "*2\r\n$4\r\nport\r\n$4\r\n6379\r\n");
    assert_eq!(Config.run(strings(&["get", "timeout"]), &mut s).unwrap(), "*2\r\n$7\r\ntimeout\r\n$3\r\n300\r\n");
    assert_eq!(Config.run(strings(&["get", "verbose"]), &mut s).unwrap(), "*2\r\n$7\r\nverbose\r\n$1\r\n1\r\n");
    assert_eq!(
        Config.run(strings(&["get", "dbfilename"]), &mut s).unwrap(),
        "*2\r\n$10\r\ndbfilename\r\n$8\r\ndump.rdb\r\n"
    );
    assert_eq!(
        Config.run(strings(&["get", "other"]), &mut s).unwrap_err().print_it(),
        "ERR Unknown subcommand or wrong number of arguments for 'get'."
    );
}

#[test]
fn config_set_changes_each_setting() {
    let mut s = server();
    assert_eq!(Config.run(strings(&["set", "logfile", "new.log"]), &mut s).unwrap(), "+OK\r\n");
    assert_eq!(s.logfile_name, "new.log");
    assert_eq!(Config.run(strings(&["set", "dbfilename", "other.rdb"]), &mut s).unwrap(), "+OK\r\n");
    assert_eq!(s.dbfile_name, "other.rdb");
    assert_eq!(Config.run(strings(&["set", "verbose", "5"]), &mut s).unwrap(), "+OK\r\n");
    assert_eq!(s.verbose, 5);
    assert_eq!(
        Config.run(strings(&["set", "verbose", "loud"]), &mut s).unwrap_err().print_it(),
        "ERR Invalid verbose level received."
    );
    assert_eq!(s.verbose, 5);
    assert_eq!(
        Config.run(strings(&["set", "verbose"]), &mut s).unwrap_err().print_it(),
        "ERR wrong number of arguments for 'config set verbose' command"
    );
    assert_eq!(
        Config.run(strings(&["set", "port", "1"]), &mut s).unwrap_err().print_it(),
        "ERR Unknown subcommand or wrong number of arguments for 'set'."
    );
}

#[test]
fn config_refuses_other_subcommands() {
    let mut s = server();
    assert_eq!(
        Config.run(strings(&["reset"]), &mut s).unwrap_err().print_it(),
        "ERR Unknown subcommand or wrong number of arguments for 'config'"
    );
    assert_eq!(
        Config.run(strings(&[]), &mut s).unwrap_err().print_it(),
        "ERR wrong number of arguments for 'config' command"
    );
}

#[test]
fn dbsize_counts_keys() {
    let mut database = Database::new();
    database.insert("a".to_string(), TypeSaved::String("1".to_string()));
    database.insert("b".to_string(), TypeSaved::String("2".to_string()));
    assert_eq!(Dbsize.run(strings(&[]), &mut database).unwrap(), ":2\r\n");
    assert_eq!(
        Dbsize.run(strings(&["x"]), &mut database).unwrap_err().print_it(),
        "ERR wrong number of arguments for 'dbisze' command"
    );
}

#[test]
fn flushdb_removes_every_key() {
    let mut database = Database::new();
    database.insert("a".to_string(), TypeSaved::String("1".to_string()));
    assert_eq!(FlushDb.run(strings(&[]), &mut database).unwrap(), "+OK\r\n");
    assert_eq!(database.size(), 0);
}

#[test]
fn info_db_tells_the_number_of_keys() {
    let mut database = Database::new();
    database.insert("a".to_string(), TypeSaved::String("1".to_string()));
    assert_eq!(
        InfoDb.run(strings(&[]), &mut database).unwrap(),
        "*2\r\n$9\r\nDATABASE:\r\n$17\r\nNumber of keys: 1\r\n"
    );
}

#[test]
fn info_sv_tells_the_settings() {
    let mut s = server();
    let reply = InfoSv.run(strings(&[]), &mut s).unwrap();
    assert!(reply.starts_with("*7\r\n$7\r\nSERVER:\r\n$13\r\nip: 127.0.0.1\r\n"));
    assert!(reply.contains("$14\r\ntcp port: 6379\r\n"));
    assert!(reply.ends_with("$23\r\nlog file name: logs.txt\r\n"));
}

#[test]
fn monitor_changes_the_status() {
    let mut client = ClientFields::new("a:1".to_string());
    let reply = Monitor.run(strings(&[]), &mut client).unwrap();
    assert_eq!(reply, "+MONITOR MODE ACTIVATED. PRESS CRTL+C FOR EXIT\r\n");
    assert_eq!(client.status, Status::Monitor);
}

#[test]
fn notify_monitors_leaves_a_note() {
    let mut s = server();
    assert_eq!(NotifyMonitors.run(strings(&["set", "k", "v", "a:1"]), &mut s).unwrap(), "+OK\r\n");
    assert_eq!(s.monitor_notes.len(), 1);
    assert_eq!(s.monitor_notes[0].0, "a:1");
    assert_eq!(s.monitor_notes[0].1, strings(&["set", "k", "v"]));
}

#[test]
fn clear_client_forgets_the_client() {
    let mut s = server();
    assert_eq!(ClearClient.run(strings(&["a:1"]), &mut s).unwrap(), "+OK\r\n");
    assert_eq!(s.clients, strings(&["b:2"]));
}

#[test]
fn shutdown_marks_and_gives_the_address() {
    let mut s = server();
    assert_eq!(Shutdown.run(strings(&[]), &mut s), "127.0.0.1:6379");
    assert!(s.shutting_down);
    assert_eq!(
        Shutdown::finish(&mut s, false).unwrap_err().print_it(),
        "ERR Error to close the server."
    );
    assert!(!s.shutting_down);
    assert_eq!(Shutdown::finish(&mut s, true).unwrap(), "+OK\r\n");
}

#[test]
fn save_gives_the_dump_and_ok() {
    let mut database = Database::new();
    database.set_redis_config(RedisConfig::default());
    database.insert("k".to_string(), TypeSaved::String("v".to_string()));
    let (dump, reply) = Save.run_at(strings(&[]), &mut database, 0).unwrap();
    assert_eq!(dump, ":-1\r\n:0\r\n+k\r\n+v\r\n");
    assert_eq!(reply, "+OK\r\n");
    assert_eq!(Save.run(strings(&["x"]), &mut database).unwrap_err().print_it(), "ERR syntax error");
    let mut bare = Database::new();
    assert_eq!(Save.run(strings(&[]), &mut bare).unwrap_err().print_it(), "ERR Persistence fail");
    assert_eq!(QuickSave.run(strings(&[]), &mut bare).unwrap(), "+OK\r\n");
}

#[test]
fn parse_config_reads_the_port() {
    let text = "# a comment\r\nport 6380\r\n\r\nverbose\n".to_string();
    let c = RedisConfig::parse_config(strings(&["program", "redis.conf"]), Ok(text)).unwrap();
    assert_eq!(c.port(), "6380");
    assert_eq!(c.ip(), "127.0.0.1");
    assert_eq!(c.log_filename(), "logs.txt");
    let d = RedisConfig::parse_config(strings(&["program"]), Ok(String::new())).unwrap();
    assert_eq!(d.port(), "6379");
    assert_eq!(d.get_addr(), "127.0.0.1:6379");
    let later = RedisConfig::get_with_new_config("port 1\nport 2\n");
    assert_eq!(later.port(), "2");
}

#[test]
fn redis_logo_shows_the_port() {
    let logo = redis_messages::redis_logo("7000");
    assert!(logo.contains("Port: 7000\n"));
    assert!(logo.starts_with("                _._"));
    assert!(logo.ends_with("`-.__.-'                                               \n\n"));
}

#[test]
fn file_manager_reads_and_writes_bulk_strings() {
    let manager = FileManager::new();
    assert_eq!(manager.encode_line("hello".to_string()), "$5\r\nhello\r\n");
    assert_eq!(FileManager::default().read_line("$5\r\nhello\r\n".to_string()).unwrap(), "hello");
}

#[test]
fn file_handler_keeps_the_last_line() {
    let mut handler = FileHandler::new();
    assert_eq!(handler.get(), None);
    handler._write_line("one".to_string());
    handler._write_line("two".to_string());
    assert_eq!(handler.get(), Some("two".to_string()));
    assert_eq!(handler.get(), None);
}
