//! Answers to the commands that arrive in CAN frames.

use vstd::prelude::*;
use crate::firmware::drivers::can::{CanCommand, CanFrame};

verus! {

/// Answer to a command.
#[derive(Debug, Clone, Copy, PartialEq, Eq, Structural)]
pub enum CommandResponse {
    /// The command was accepted.
    Ack,
    Status { state: u8, error: u8 },
    Telemetry { position: i32, velocity: i32, current: i16, voltage: u16 },
    Error,
}

/// The answer owed to `frame`.
///
/// A frame without a known command gets none. A command that sets a target
/// needs its parameter in the four bytes after the command byte and is
/// acknowledged; without them it gets no answer. A request for the status is
/// answered with state 1 and no error, one for telemetry with zeros; the other
/// commands are acknowledged.
pub open spec fn response_to(frame: &CanFrame) -> Result<CommandResponse, ()> {
    match frame.command() {
        Err(_) => Err(()),
        Ok(CanCommand::SetPosition) | Ok(CanCommand::SetVelocity) | Ok(CanCommand::SetTorque) => {
            if frame.parameter(1) is Some {
                Ok(CommandResponse::Ack)
            } else {
                Err(())
            }
        },
        Ok(CanCommand::GetStatus) => Ok(CommandResponse::Status { state: 1, error: 0 }),
        Ok(CanCommand::GetTelemetry) => Ok(
            CommandResponse::Telemetry { position: 0, velocity: 0, current: 0, voltage: 0 },
        ),
        Ok(CanCommand::Calibrate) | Ok(CanCommand::EmergencyStop) => Ok(CommandResponse::Ack),
    }
}

/// Answers the command that `frame` carries.
pub fn process_command(frame: &CanFrame) -> (r: Result<CommandResponse, ()>)
    ensures
        r == response_to(frame),
        r is Ok ==> frame.bytes().len() >= 1,
{
    let cmd = match frame.parse_command() {
        Ok(cmd) => cmd,
        Err(_) => {
            return Err(());
        },
    };
    match cmd {
        CanCommand::SetPosition | CanCommand::SetVelocity | CanCommand::SetTorque => {
            match frame.get_i32(1) {
                Some(_) => Ok(CommandResponse::Ack),
                None => Err(()),
            }
        },
        CanCommand::GetStatus => Ok(CommandResponse::Status { state: 1, error: 0 }),
        CanCommand::GetTelemetry => Ok(
            CommandResponse::Telemetry { position: 0, velocity: 0, current: 0, voltage: 0 },
        ),
        CanCommand::Calibrate => Ok(CommandResponse::Ack),
        CanCommand::EmergencyStop => Ok(CommandResponse::Ack),
    }
}

} // verus!
