//! Exit codes that the emulator's debug-exit device reports.
use vstd::prelude::*;

verus! {

/// Port of the emulator's debug-exit device.
pub const EXIT_PORT: u16 = 0xf4;

/// Outcome reported when the emulator is left.
#[derive(Clone, Copy, Debug, PartialEq, Eq)]
pub enum QemuExitCode {
    Success,
    Failed,
}

impl QemuExitCode {
    /// The value written to the exit port.
    pub fn code(self) -> (r: u32)
        ensures
            self == QemuExitCode::Success ==> r == 0x10,
            self == QemuExitCode::Failed ==> r == 0x11,
    {
        match self {
            QemuExitCode::Success => 0x10,
            QemuExitCode::Failed => 0x11,
        }
    }
}

} // verus!
