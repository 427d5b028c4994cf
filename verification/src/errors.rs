//! The error taxonomy of a hidden read.

use vstd::prelude::*;

verus! {

/// Why a hidden read failed. Every failure is an ordinary returned value;
/// none is retried internally and none aborts the process.
#[derive(Clone, Copy, Debug, PartialEq, Eq, Structural)]
pub enum Error {
    /// The terminal or console device could not be opened.
    DeviceOpen,
    /// The current terminal settings could not be retrieved.
    SettingsQuery,
    /// The modified (echo-off) settings could not be applied.
    SettingsMutation,
    /// The read from the device or stream failed.
    Read,
}

} // verus!
