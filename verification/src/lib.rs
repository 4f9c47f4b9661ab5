//! Verified core of a remote-control dispatch engine: a serial-line listener
//! with its debounce/repeat state machine, code-to-action resolution, and a
//! media-device subsystem (enumeration, active-device tracking, volume
//! arithmetic, mute handling).

pub mod binds;
pub mod browser;
pub mod commands;
pub mod config;
pub mod dispatch;
pub mod errors;
pub mod keys;
pub mod listener;
pub mod listing;
pub mod media;
pub mod strutil;

pub use binds::Action;
pub use binds::Bind;
pub use config::Config;
pub use errors::Error;
pub use keys::Key;
