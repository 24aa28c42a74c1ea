//! Error vocabulary of the dump session and its surrounding shell.

use vstd::prelude::*;

verus! {

/// Every failure of a dump run. Nothing is retried: each of these is
/// fatal to the session that raised it.
#[derive(Debug, PartialEq, Eq)]
pub enum Error {
    /// The serial device could not be opened.
    PortOpenFailure,
    /// The serial device refused its line settings.
    PortConfigFailure,
    /// Draining leftover bytes from the port failed with a real error
    /// (a timeout while draining is the normal end, not this).
    PortDrainFailure,
    /// A port read or write timed out outside the drain step.
    PortTimeout,
    /// A port read or write failed with an error other than a timeout.
    TransportFailure,
    /// The external board-reset tool exited with a non-zero status.
    BoardResetFailure { exit_code: Option<i32> },
    /// The first bank's bytes do not form a readable cartridge header.
    HeaderParseFailure,
    /// The header's declared checksum differs from the one recomputed
    /// over the header region.
    ChecksumMismatch { expected: u8, computed: u8 },
    /// The requested mode or memory region has no functional path.
    UnimplementedOperation,
    /// The output sink could not be opened or written.
    SinkFailure,
}

} // verus!
