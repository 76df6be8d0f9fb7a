//! Thread pool for downloading content: a channel for sending requests and
//! one for receiving results.
pub mod config;
pub mod error;
pub mod event_loop;
pub mod manager;
mod outside;
pub mod task;

pub use self::config::{Config, ConfigError};
pub use self::error::TaskError;
pub use self::task::Task;
