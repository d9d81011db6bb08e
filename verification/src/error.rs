//! The ways in which a probe run fails.

use vstd::prelude::*;

verus! {

/// Why a run was given up. Every one of them ends the run at once.
#[derive(Clone, Copy, Debug, PartialEq, Eq, Structural)]
pub enum PingError {
    /// The destination is not an IP address literal.
    InvalidDestination,
    /// The raw channel to the network could not be opened.
    TransportOpenError,
    /// The buffer cannot hold the header of an echo request.
    BufferTooSmall,
    /// The request could not be sent.
    TransmissionError,
    /// What came back is too short to be an echo reply.
    InvalidEchoReply,
    /// The channel failed while waiting for a reply.
    ReceiveError,
}

impl PingError {
    /// The text of the message that describes the error.
    pub open spec fn message_text(self) -> Seq<char> {
        match self {
            PingError::InvalidDestination => "Invalid destination address"@,
            PingError::TransportOpenError => "Could not open the transport channel"@,
            PingError::BufferTooSmall => "Buffer is less than mininum required packet size"@,
            PingError::TransmissionError => "Could not send the ICMP Echo Request"@,
            PingError::InvalidEchoReply => "Invalid ICMP Echo Reply"@,
            PingError::ReceiveError => "Could not receive an ICMP packet"@,
        }
    }

    /// A sentence for the user.
    pub fn message(&self) -> (text: &'static str)
        ensures
            text@ == self.message_text(),
    {
        match self {
            PingError::InvalidDestination => "Invalid destination address",
            PingError::TransportOpenError => "Could not open the transport channel",
            PingError::BufferTooSmall => "Buffer is less than mininum required packet size",
            PingError::TransmissionError => "Could not send the ICMP Echo Request",
            PingError::InvalidEchoReply => "Invalid ICMP Echo Reply",
            PingError::ReceiveError => "Could not receive an ICMP packet",
        }
    }
}

} // verus!
