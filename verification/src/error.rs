//! The scan engine's error taxonomy.  Configuration errors and fatal I/O
//! conditions unwind out of the engine; read timeouts and malformed inbound
//! frames are never errors.

use vstd::prelude::*;

verus! {

/// A terminal failure of one scan.
///
/// Configuration errors (`ConfigurationError`, `NoSourceAddress`,
/// `UnsupportedChannel`) are detected before or upon opening the channel;
/// `SendFailed` and `ChannelFailed` report fatal I/O after it, a different
/// remediation for the caller.
#[derive(Clone, Copy, PartialEq, Eq, Structural, Debug)]
pub enum ScanError {
    /// The selected interface has no hardware address.
    ConfigurationError,
    /// No IPv4 address is bound to the selected interface.
    NoSourceAddress,
    /// The platform offered no raw Ethernet channel for the interface.
    UnsupportedChannel,
    /// The single outbound send did not go through; ARP gives nothing to
    /// retry against, so this is fatal.
    SendFailed,
    /// A receive failed with other than a timeout: the channel is gone.
    ChannelFailed,
}

impl ScanError {
    /// The user-facing description of this failure.
    pub open spec fn spec_message(self) -> Seq<char> {
        match self {
            ScanError::ConfigurationError => "interface has no hardware address"@,
            ScanError::NoSourceAddress => "no IPv4 address found on interface"@,
            ScanError::UnsupportedChannel => "unsupported channel type"@,
            ScanError::SendFailed => "failed to send ARP request"@,
            ScanError::ChannelFailed => "error receiving packet"@,
        }
    }

    pub fn message(&self) -> (r: &'static str)
        ensures
            r@ == self.spec_message(),
    {
        match self {
            ScanError::ConfigurationError => "interface has no hardware address",
            ScanError::NoSourceAddress => "no IPv4 address found on interface",
            ScanError::UnsupportedChannel => "unsupported channel type",
            ScanError::SendFailed => "failed to send ARP request",
            ScanError::ChannelFailed => "error receiving packet",
        }
    }
}

} // verus!
