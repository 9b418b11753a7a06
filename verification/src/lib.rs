use vstd::prelude::*;

pub mod commands;
pub mod communication;
pub mod database;
pub mod file_manager;
pub mod joinable;
pub mod logs;
pub mod memory_checker;
pub mod messages;
pub mod native_types;
pub mod redis_config;
pub mod redis_string;
pub mod redis_type;
pub mod server_redis_attributes;
pub mod string_map;
pub mod text;
pub mod time_expiration;

verus! {

} // verus!
