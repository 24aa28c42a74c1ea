//! Decisions around the serial device that the I/O shell carries out:
//! how each development board is reset before a session, what a reset
//! attempt's outcome means, and how the pre-session drain loop answers
//! each read outcome.

use vstd::prelude::*;
use crate::errors::Error;

verus! {

/// The development board driving the cartridge reader.
#[derive(Debug, Clone, Copy, PartialEq, Eq, Structural)]
pub enum Board {
    Generic,
    St,
}

/// How a board is reset before the session: by asking the operator to
/// press the reset button, or by running an external tool.
#[derive(Debug, Clone, Copy, PartialEq, Eq)]
pub enum ResetMethod {
    ManualPrompt,
    ExternalTool { program: &'static str, argument: &'static str },
}

/// The reset capability each board calls for.
pub open spec fn reset_method_spec(b: Board) -> ResetMethod {
    match b {
        Board::Generic => ResetMethod::ManualPrompt,
        Board::St => ResetMethod::ExternalTool { program: "st-flash", argument: "reset" },
    }
}

/// The reset capability each board calls for: a generic board is reset
/// by hand, an ST board through its flashing tool.
pub fn reset_method(b: &Board) -> (r: ResetMethod)
    ensures
        r == reset_method_spec(*b),
{
    match b {
        Board::Generic => ResetMethod::ManualPrompt,
        Board::St => ResetMethod::ExternalTool { program: "st-flash", argument: "reset" },
    }
}

/// The session verdict on a reset attempt: a manual prompt and a
/// zero-status tool run succeed; a non-zero (or signalled) tool run is
/// fatal, carrying the exit code when there is one.
pub open spec fn reset_outcome_spec(success: bool, exit_code: Option<i32>) -> Result<(), Error> {
    if success {
        Ok(())
    } else {
        Err(Error::BoardResetFailure { exit_code })
    }
}

/// The session verdict on a reset attempt.
pub fn reset_outcome(success: bool, exit_code: Option<i32>) -> (r: Result<(), Error>)
    ensures
        r == reset_outcome_spec(success, exit_code),
{
    if success {
        Ok(())
    } else {
        Err(Error::BoardResetFailure { exit_code })
    }
}

/// One read outcome inside the pre-session drain loop.
#[derive(Debug, Clone, Copy, PartialEq, Eq, Structural)]
pub enum DrainEvent {
    /// The port handed back this many buffered bytes.
    Received { count: usize },
    /// The read timed out: nothing more is in flight.
    TimedOut,
    /// The read failed with a real error.
    Failed,
}

/// What the drain loop does after one read outcome.
#[derive(Debug, PartialEq, Eq)]
pub enum DrainStep {
    /// Leftover bytes were discarded; read again.
    Continue,
    /// The port is drained; proceed with the session.
    Finished,
    /// A real error ends the whole run.
    Fail(Error),
}

/// The drain loop's answer to one read outcome: an end of input or a
/// timeout is its normal termination, leftover bytes keep it reading,
/// and any other error is fatal.
pub open spec fn drain_step_spec(ev: DrainEvent) -> DrainStep {
    match ev {
        DrainEvent::Received { count } => if count == 0 {
            DrainStep::Finished
        } else {
            DrainStep::Continue
        },
        DrainEvent::TimedOut => DrainStep::Finished,
        DrainEvent::Failed => DrainStep::Fail(Error::PortDrainFailure),
    }
}

/// The drain loop's answer to one read outcome.
pub fn drain_step(ev: &DrainEvent) -> (r: DrainStep)
    ensures
        r == drain_step_spec(*ev),
{
    match ev {
        DrainEvent::Received { count } => if *count == 0 {
            DrainStep::Finished
        } else {
            DrainStep::Continue
        },
        DrainEvent::TimedOut => DrainStep::Finished,
        DrainEvent::Failed => DrainStep::Fail(Error::PortDrainFailure),
    }
}

} // verus!
