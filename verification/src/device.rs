//! Choosing, switching and leaving the input device.
//!
//! The device itself belongs to whoever talks to the hardware. What is decided here is
//! what that side has to do for a command: which port to open, and whether the
//! connection that is open has to be closed first. At most one connection is open at
//! any time, and a selection that names no port leaves everything as it is.

use crate::midi::MidiResponse;
use vstd::prelude::*;

verus! {

/// Why a device could not be used.
#[derive(Clone, Copy, Debug, PartialEq, Eq, Structural)]
pub enum DeviceError {
    /// The selected port is not among the available ones.
    InvalidPort,
    /// The port exists, but the connection was refused.
    ConnectionFailed,
}

/// What the player asks of the device side.
#[derive(Clone, Copy, Debug, PartialEq, Eq, Structural)]
pub enum MidiCommand {
    /// Connect to the port at this place of the list of available ports.
    Connect(usize),
    /// Close the connection.
    Disconnect,
}

/// What the device side has to do for a command, in this order: close the connection
/// that is open, then open a port.
#[derive(Clone, Copy, Debug, PartialEq, Eq, Structural)]
pub struct DevicePlan {
    /// Whether a connection is open and has to be closed.
    pub close: bool,
    /// The port to open after that, if any.
    pub open: Option<usize>,
}

/// Which port is open.
#[derive(Clone, Copy, Debug, PartialEq, Eq, Structural)]
pub struct DeviceLink {
    /// Place of the open port in the list of available ports, if a connection is open.
    pub port: Option<usize>,
}

/// The port that a selection names, if the list of ports has it.
pub open spec fn selected_port(device_id: usize, port_count: usize) -> Result<usize, DeviceError> {
    if device_id < port_count {
        Ok(device_id)
    } else {
        Err(DeviceError::InvalidPort)
    }
}

impl DevicePlan {
    /// The message that the simulation is owed when the plan is carried out: a
    /// connection that is closed is reported as `Disconnected`.
    pub open spec fn notice_of(self) -> Option<MidiResponse> {
        if self.close {
            Some(MidiResponse::Disconnected)
        } else {
            None
        }
    }

    /// Tells the message that the simulation is owed for the closing part of the plan.
    pub fn notice(&self) -> (message: Option<MidiResponse>)
        ensures
            message == self.notice_of(),
    {
        if self.close {
            Some(MidiResponse::Disconnected)
        } else {
            None
        }
    }
}

impl DeviceLink {
    /// What a command asks the device side to do, or why it cannot be done.
    pub open spec fn plan_of(self, command: MidiCommand, port_count: usize) -> Result<
        DevicePlan,
        DeviceError,
    > {
        match command {
            MidiCommand::Connect(device_id) => match selected_port(device_id, port_count) {
                Ok(port) => Ok(DevicePlan { close: self.port.is_some(), open: Some(port) }),
                Err(error) => Err(error),
            },
            MidiCommand::Disconnect => Ok(DevicePlan { close: self.port.is_some(), open: None }),
        }
    }

    /// The link after a command was planned: a command that can be done closes the
    /// open connection, one that cannot leaves it.
    pub open spec fn after_request(self, command: MidiCommand, port_count: usize) -> DeviceLink {
        match self.plan_of(command, port_count) {
            Ok(_) => DeviceLink { port: None },
            Err(_) => self,
        }
    }

    /// The link after an attempt to open a port has ended.
    pub open spec fn after_attempt(self, port: usize, connected: bool) -> DeviceLink {
        if connected {
            DeviceLink { port: Some(port) }
        } else {
            self
        }
    }

    /// No connection is open.
    pub fn new() -> (link: DeviceLink)
        ensures
            link.port.is_none(),
    {
        DeviceLink { port: None }
    }

    /// Plans a command. The plan closes the open connection before it opens another. A
    /// selection that names no port is refused, and the open connection stays.
    pub fn request(&mut self, command: MidiCommand, port_count: usize) -> (plan: Result<
        DevicePlan,
        DeviceError,
    >)
        ensures
            plan == old(self).plan_of(command, port_count),
            *final(self) == old(self).after_request(command, port_count),
    {
        match command {
            MidiCommand::Connect(device_id) => match select_device(device_id, port_count) {
                Ok(port) => {
                    let close = self.port.is_some();
                    self.port = None;
                    Ok(DevicePlan { close, open: Some(port) })
                },
                Err(error) => Err(error),
            },
            MidiCommand::Disconnect => {
                let close = self.port.is_some();
                self.port = None;
                Ok(DevicePlan { close, open: None })
            },
        }
    }

    /// Takes note of how an attempt to open a port ended. Returns the message that the
    /// simulation is owed for a connection that stands, and the error for one that
    /// was refused.
    pub fn settle(&mut self, port: usize, connected: bool) -> (outcome: Result<
        MidiResponse,
        DeviceError,
    >)
        ensures
            *final(self) == old(self).after_attempt(port, connected),
            connected ==> outcome == Ok::<MidiResponse, DeviceError>(MidiResponse::Connected),
            !connected ==> outcome == Err::<MidiResponse, DeviceError>(
                DeviceError::ConnectionFailed,
            ),
    {
        if connected {
            self.port = Some(port);
            Ok(MidiResponse::Connected)
        } else {
            Err(DeviceError::ConnectionFailed)
        }
    }
}

/// Checks a selection against the list of available ports: the place of the port to
/// connect to, or `InvalidPort` when the list has no such entry.
pub fn select_device(device_id: usize, port_count: usize) -> (port: Result<usize, DeviceError>)
    ensures
        port == selected_port(device_id, port_count),
{
    if device_id < port_count {
        Ok(device_id)
    } else {
        Err(DeviceError::InvalidPort)
    }
}

/// A new connection is opened only after the one before it was closed: whenever a plan
/// opens a port while a connection is open, it closes that connection first, and the
/// link holds no port until the attempt has ended.
pub proof fn lemma_one_connection(link: DeviceLink, command: MidiCommand, port_count: usize)
    ensures
        match link.plan_of(command, port_count) {
            Ok(plan) => {
                &&& plan.close == link.port.is_some()
                &&& link.after_request(command, port_count).port.is_none()
                &&& plan.open matches Some(port) ==> port < port_count
            },
            Err(error) => {
                &&& error == DeviceError::InvalidPort
                &&& link.after_request(command, port_count) == link
            },
        },
{
}

} // verus!
