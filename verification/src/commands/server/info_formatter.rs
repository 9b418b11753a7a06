//! The lines of text of the INFO command.
pub mod info_client_formatter;
pub mod info_db_formatter;
pub mod info_server_formatter;
