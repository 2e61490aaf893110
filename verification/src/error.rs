//! The failures an endpoint can report.

use vstd::prelude::*;

verus! {

/// The step of interface configuration that an external command performs.
#[derive(Debug, Clone, Copy, PartialEq, Eq, Structural)]
pub enum ConfigStep {
    /// Assign the tunnel address to the interface.
    AssignAddress,
    /// Bring the interface administratively up.
    LinkUp,
}

/// Everything that can go wrong at an endpoint.
#[derive(Debug, Clone, Copy, PartialEq, Eq, Structural)]
pub enum TunnelError {
    /// The virtual interface could not be opened or registered.
    DeviceUnavailable,
    /// A configuration command exited with a non-zero status.
    ConfigurationFailed(ConfigStep),
    /// The handshake line could not be exchanged.
    HandshakeFailed,
    /// A packet is longer than a frame can announce.
    PacketTooLarge,
    /// A frame announces more bytes than the receive buffer holds.
    PacketTooLargeForBuffer,
    /// The stream ended before the bytes asked for had arrived.
    ConnectionClosed,
    /// Any other failure of the device, the socket or a command.
    IOError,
}

/// The text by which an error is reported to the operator.
pub open spec fn message_text(error: TunnelError) -> Seq<char> {
    match error {
        TunnelError::DeviceUnavailable => "TUN device unavailable"@,
        TunnelError::ConfigurationFailed(ConfigStep::AssignAddress) => "Failed to set IP on TUN"@,
        TunnelError::ConfigurationFailed(ConfigStep::LinkUp) => "Failed to set TUN up"@,
        TunnelError::HandshakeFailed => "Handshake failed"@,
        TunnelError::PacketTooLarge => "Packet too large"@,
        TunnelError::PacketTooLargeForBuffer => "Packet too large for buffer"@,
        TunnelError::ConnectionClosed => "Connection closed"@,
        TunnelError::IOError => "I/O error"@,
    }
}

impl TunnelError {
    /// The text by which this error is reported to the operator.
    pub fn message(&self) -> (text: &'static str)
        ensures
            text@ == message_text(*self),
    {
        match self {
            TunnelError::DeviceUnavailable => "TUN device unavailable",
            TunnelError::ConfigurationFailed(ConfigStep::AssignAddress) => "Failed to set IP on TUN",
            TunnelError::ConfigurationFailed(ConfigStep::LinkUp) => "Failed to set TUN up",
            TunnelError::HandshakeFailed => "Handshake failed",
            TunnelError::PacketTooLarge => "Packet too large",
            TunnelError::PacketTooLargeForBuffer => "Packet too large for buffer",
            TunnelError::ConnectionClosed => "Connection closed",
            TunnelError::IOError => "I/O error",
        }
    }
}

} // verus!
