//! A second, simpler key space without expiration, and MSET on it.
pub mod database_mock_v2;
pub mod mset_v2;
