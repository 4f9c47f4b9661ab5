//! The configuration snapshot the listener reads on every reconnect attempt
//! and the dispatcher reads on every dispatch.
//!
//! Loading and saving the configuration is an external collaborator's job;
//! the core only reads values of this type.

use vstd::prelude::*;
use crate::binds::Bind;

verus! {

/// A snapshot of the user configuration.
#[derive(Debug, Clone)]
pub struct Config {
    /// Serial port number the remote receiver is attached to.
    pub com_port: u32,
    /// Baud rate for the serial link.
    pub baud_rate: u32,
    /// The bind table, iterated in snapshot order on every dispatch.
    pub binds: Vec<Bind>,
    /// Whether enumeration hides the virtual mixing device's non-microphone
    /// sub-channels.
    pub steel_series_filter: bool,
}

impl Default for Config {
    /// The configuration used until the user changes it.
    fn default() -> (c: Self)
        ensures
            c.com_port == 8,
            c.baud_rate == 9600,
            c.binds@.len() == 0,
            c.steel_series_filter,
    {
        Config { com_port: 8, baud_rate: 9600, binds: Vec::new(), steel_series_filter: true }
    }
}

} // verus!
