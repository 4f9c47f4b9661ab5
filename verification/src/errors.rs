//! Errors of the dispatch engine and of the media subsystem.

use vstd::prelude::*;

verus! {

/// An error raised by the dispatch engine or the media subsystem.
///
/// Connection-level errors terminate the current connection; media errors are
/// reported at the dispatch boundary and never stop the listener.
#[derive(Debug, Clone, PartialEq, Eq)]
pub enum Error {
    /// A non-empty remote code did not start with the `0x` prefix.
    InvalidRemoteCode,
    /// Device enumeration produced zero devices.
    FoundNoDevices,
    /// The device-listing tool could not be run.
    FailedReadDevicesList,
    /// The set-default tool reported failure for the named device.
    FailedSwitchToDevice(String),
    /// No device with the given name is in the cached device list.
    DeviceNotFound(String),
    /// No active device is in the cached device list.
    ActiveDeviceNotFound,
    /// The volume-set tool reported failure.
    FailedSetVolume,
}

} // verus!
