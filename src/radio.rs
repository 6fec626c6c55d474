//! What the radio reports back to the orchestrator.
use vstd::prelude::*;

verus! {

/// Result of a transmitted uplink.
#[derive(Clone, Copy, Debug, PartialEq, Eq, Structural)]
pub enum UplinkOutcome {
    /// A downlink came back; it carries the downlink frame counter.
    DownlinkReceived(u32),
    /// A confirmed uplink was not acknowledged.
    NoAck,
    /// The receive windows closed without a downlink.
    RxComplete,
    /// The network session is no longer valid.
    SessionExpired,
}

/// A failure of the radio stack.
#[derive(Clone, Copy, Debug, PartialEq, Eq, Structural)]
pub enum LoraRadioError {
    /// A join request got no join accept.
    NoJoinAccept,
    /// A confirmed uplink was not acknowledged.
    NoAck,
    /// The network session is no longer valid.
    SessionExpired,
    /// Any other failure of the LoRaWAN stack or the radio.
    LoRaWAN,
}

} // verus!
