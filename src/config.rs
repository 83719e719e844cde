//! The configuration of one run and the fixed timings of the terminal.

use vstd::prelude::*;

verus! {

/// Baud rate used when none is given.
pub const DEFAULT_BAUD: u32 = 115_200;

/// Longest time spent waiting for the device to appear, in milliseconds.
pub const WAIT_MILLISECONDS: u64 = 10_000;

/// Pause between two open attempts while waiting, in milliseconds.
pub const WAIT_INTERVAL_MILLISECONDS: u64 = 100;

/// Read timeout of the open device, in milliseconds.
pub const READ_TIMEOUT_MILLISECONDS: u64 = 10;

/// Pause after a file was written, before the device is closed, in milliseconds.
pub const SETTLE_MILLISECONDS: u64 = 500;

/// Size of the buffer that device reads fill.
pub const READ_BUFFER_LEN: usize = 1000;

/// Exit code of the process after a file was sent.
pub const SUCCESS_EXIT_CODE: i32 = 0;

/// Exit code of the process after any fatal error.
pub const FAILURE_EXIT_CODE: i32 = 1;

/// What a run does once the device is open.
#[derive(Clone, Copy, Debug, PartialEq, Eq, Structural)]
pub enum Mode {
    /// Send the contents of a file once, then exit.
    FileSend,
    /// Relay bytes in both directions until a fatal error.
    Interactive,
}

/// The configuration of one run. It is not changed once made.
#[derive(Clone, Debug)]
pub struct Config {
    /// Path of the serial device.
    pub port: String,
    /// Baud rate to open the device at.
    pub baud: u32,
    /// Whether to wait for the device to appear.
    pub wait: bool,
    /// File whose contents are sent instead of an interactive session.
    pub input_file: Option<String>,
}

impl Config {
    /// A configuration for `port` with the default baud rate, no waiting and
    /// an interactive session.
    pub fn new(port: String) -> (r: Config)
        ensures
            r.port@ == port@,
            r.baud == DEFAULT_BAUD,
            !r.wait,
            r.input_file is None,
    {
        Config { port, baud: DEFAULT_BAUD, wait: false, input_file: None }
    }

    /// The mode that this configuration selects: sending a file when one is
    /// given, an interactive session otherwise.
    pub fn mode(&self) -> (r: Mode)
        ensures
            r == (if self.input_file is Some { Mode::FileSend } else { Mode::Interactive }),
    {
        match &self.input_file {
            Some(_) => Mode::FileSend,
            None => Mode::Interactive,
        }
    }
}

/// Number of open attempts made while waiting for the device: one for each
/// interval of the waiting window but the last.
pub open spec fn max_attempts_spec() -> u64 {
    (WAIT_MILLISECONDS / WAIT_INTERVAL_MILLISECONDS - 1) as u64
}

/// Number of open attempts made while waiting for the device.
pub fn max_attempts() -> (r: u64)
    ensures
        r == max_attempts_spec(),
        r * WAIT_INTERVAL_MILLISECONDS <= WAIT_MILLISECONDS,
{
    WAIT_MILLISECONDS / WAIT_INTERVAL_MILLISECONDS - 1
}

} // verus!
