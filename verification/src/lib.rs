//! Supervision logic for a dedicated game server: log-line recognition, kill
//! statistics, webhook notifications and the calendar rules that reset them.

pub mod text;
pub mod text_map;
pub mod event;
pub mod knife_score;
pub mod log_parser;
pub mod webhook;
pub mod knife_scheduler;
pub mod hlds;
pub mod port;
pub mod users;
pub mod maps;
pub mod system;
