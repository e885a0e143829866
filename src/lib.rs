pub mod budget;
pub mod config;
pub mod connection;
pub mod consumer;
pub mod record;
pub mod search;
pub mod store;
pub mod table;
pub mod tailer;
pub mod zk;
