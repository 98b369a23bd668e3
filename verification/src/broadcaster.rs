pub mod com;
pub mod config;
pub mod udp;
