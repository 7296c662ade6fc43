//! Connectivity information: the transports a session has open, the links
//! within them, and the events reported when either changes.
use vstd::prelude::*;
use crate::config::WhatAmI;
use crate::qos::Reliability;
use crate::zenoh_id::ZenohId;

verus! {

/// The range of priorities a link carries, as the raw numbers zenoh reports
/// (zenoh also uses `0`, for control traffic).
#[derive(Clone, Copy, Debug, PartialEq, Eq)]
pub struct PriorityRange {
    /// First priority of the range, as zenoh reports it.
    pub start: u8,
    /// Last priority of the range, as zenoh reports it.
    pub end: u8,
}

/// A transport established to another Zenoh node, as a plain value.
#[derive(Clone, Copy, Debug, PartialEq, Eq)]
pub struct Transport {
    /// Identifier of the node at the other end.
    pub zid: ZenohId,
    /// Type of the node at the other end.
    pub whatami: WhatAmI,
    /// Whether this transport supports QoS. When it does not, its links
    /// report no priorities and no reliability.
    pub is_qos: bool,
    /// Whether this transport is multicast.
    pub is_multicast: bool,
}

/// A protocol-level connection within a [`Transport`], as a plain value.
#[derive(Clone, Debug, PartialEq, Eq)]
pub struct Link {
    /// Identifier of the node this link's transport connects to.
    pub zid: ZenohId,
    /// Local endpoint.
    pub src: String,
    /// Remote endpoint.
    pub dst: String,
    /// Group endpoint, present when the link is multicast.
    pub group: Option<String>,
    /// Maximum transmission unit of the link, in bytes.
    pub mtu: u16,
    /// Whether the link is streamed.
    pub is_streamed: bool,
    /// Network interfaces this link is bound to.
    pub interfaces: Vec<String>,
    /// Authentication identifier of the link, for protocols that carry one.
    pub auth_identifier: Option<String>,
    /// Priorities the link carries, absent when its transport has no QoS.
    pub priorities: Option<PriorityRange>,
    /// Reliability of the link, absent when its transport has no QoS.
    pub reliability: Option<Reliability>,
}

/// What happened to a link.
#[derive(Clone, Copy, Debug, PartialEq, Eq, Structural)]
pub enum LinkEventKind {
    /// The link was established.
    Added,
    /// The link went away.
    Removed,
}

/// What happened to a transport.
#[derive(Clone, Copy, Debug, PartialEq, Eq, Structural)]
pub enum TransportEventKind {
    /// The transport was opened.
    Opened,
    /// The transport was closed.
    Closed,
}

/// A link appearing or disappearing.
#[derive(Clone, Debug, PartialEq, Eq)]
pub struct LinkEvent {
    /// What happened to the link.
    pub kind: LinkEventKind,
    /// The link it happened to.
    pub link: Link,
}

/// A transport opening or closing.
#[derive(Clone, Copy, Debug, PartialEq, Eq)]
pub struct TransportEvent {
    /// What happened to the transport.
    pub kind: TransportEventKind,
    /// The transport it happened to.
    pub transport: Transport,
}

} // verus!
