//! Delivery-quality settings: priority, congestion control, reliability.
use vstd::prelude::*;

verus! {

/// Congestion control policy used when routing data.
#[derive(Debug, Clone, Copy, PartialEq, Eq, Structural)]
pub enum CongestionControl {
    /// Drop messages when buffers are full.
    Drop,
    /// Wait for buffer space instead of dropping messages.
    Block,
    /// Block only while delivering the first message.
    BlockFirst,
}

/// The delivery priority of a message, from real-time to background traffic.
#[derive(Debug, Clone, Copy, PartialEq, Eq, Structural)]
pub enum Priority {
    /// Highest priority for real-time data.
    RealTime,
    /// High priority for interactive traffic.
    InteractiveHigh,
    /// Low priority for interactive traffic.
    InteractiveLow,
    /// High priority for ordinary data.
    DataHigh,
    /// Standard priority for ordinary data.
    Data,
    /// Low priority for ordinary data.
    DataLow,
    /// Lowest priority for background traffic.
    Background,
}

/// The requested delivery reliability for publications and subscriptions.
#[derive(Debug, Clone, Copy, PartialEq, Eq, Structural)]
pub enum Reliability {
    /// Prefer lower overhead without retransmission guarantees.
    BestEffort,
    /// Request retransmission when necessary for reliable delivery.
    Reliable,
}

/// zenoh's default priority (`zenoh::qos::Priority::DEFAULT`), which its
/// source defines as `Data`.
#[verifier::external_body]
pub(crate) fn base_default_priority() -> (p: Priority)
    ensures
        p == Priority::Data,
{
    match zenoh::qos::Priority::DEFAULT {
        zenoh::qos::Priority::RealTime => Priority::RealTime,
        zenoh::qos::Priority::InteractiveHigh => Priority::InteractiveHigh,
        zenoh::qos::Priority::InteractiveLow => Priority::InteractiveLow,
        zenoh::qos::Priority::DataHigh => Priority::DataHigh,
        zenoh::qos::Priority::Data => Priority::Data,
        zenoh::qos::Priority::DataLow => Priority::DataLow,
        zenoh::qos::Priority::Background => Priority::Background,
    }
}

/// zenoh's default congestion control (`CongestionControl::DEFAULT`), which
/// its source defines as `Drop`.
#[verifier::external_body]
pub(crate) fn base_default_congestion_control() -> (c: CongestionControl)
    ensures
        c == CongestionControl::Drop,
{
    match zenoh::qos::CongestionControl::DEFAULT {
        zenoh::qos::CongestionControl::Drop => CongestionControl::Drop,
        zenoh::qos::CongestionControl::Block => CongestionControl::Block,
        zenoh::qos::CongestionControl::BlockFirst => CongestionControl::BlockFirst,
    }
}

/// zenoh's default reliability (`Reliability::DEFAULT`), which its source
/// defines as `Reliable`.
#[verifier::external_body]
pub(crate) fn base_default_reliability() -> (r: Reliability)
    ensures
        r == Reliability::Reliable,
{
    match zenoh::qos::Reliability::DEFAULT {
        zenoh::qos::Reliability::BestEffort => Reliability::BestEffort,
        zenoh::qos::Reliability::Reliable => Reliability::Reliable,
    }
}

} // verus!
