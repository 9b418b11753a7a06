//! Commands about the server and the database as a whole.
pub mod clear_client;
pub mod config;
pub mod config_get;
pub mod config_set;
pub mod config_set_db_file_name;
pub mod config_set_log_fle;
pub mod config_set_verbose;
pub mod dbsize;
pub mod flushdb;
pub mod info_db;
pub mod info_formatter;
pub mod info_sv;
pub mod monitor;
pub mod notify_monitors;
pub mod save;
pub mod shutdown;
pub mod take_snapshot;
