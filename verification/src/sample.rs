//! Samples: what a publication or deletion carries.
use vstd::prelude::*;
use crate::bytes::{ZBytes, Encoding, EncodingView, base_default_encoding};
use crate::error::Error;
use crate::keyexpr::KeyExpr;
use crate::qos::{CongestionControl, Priority, Reliability, base_default_priority,
    base_default_congestion_control, base_default_reliability};
use crate::time::{Timestamp, TimestampView, timestamp_validate, timestamp_id_valid,
    timestamp_normalized, base_timestamp_id_rand, trim_trailing_zeros};
use crate::zenoh_id::{EntityGlobalId, ZenohId};

verus! {

#[verifier::external_type_specification]
#[verifier::external_body]
pub struct ExTimestampStack(zenoh::timestamp_stack::TimestampStack);

/// zenoh's `TimestampStack::clone`, a copy of plain data.
#[verifier::external_body]
pub(crate) fn base_timestamp_stack_clone(
    t: &zenoh::timestamp_stack::TimestampStack,
) -> (r: zenoh::timestamp_stack::TimestampStack)
    ensures
        r == *t,
{
    t.clone()
}

pub(crate) fn clone_opt_timestamp_stack(
    t: &Option<zenoh::timestamp_stack::TimestampStack>,
) -> (r: Option<zenoh::timestamp_stack::TimestampStack>)
    ensures
        r == *t,
{
    match t {
        Some(v) => Some(base_timestamp_stack_clone(v)),
        None => None,
    }
}

/// The change represented by a sample.
#[derive(Debug, Clone, Copy, PartialEq, Eq, Structural)]
pub enum SampleKind {
    /// The sample publishes or updates a value.
    Put,
    /// The sample announces that a value was deleted.
    Delete,
}

/// Source information carried by a sample: which entity produced it and the
/// per-source sequence number. When present, all of its fields are known.
#[derive(Clone, Copy, Debug, PartialEq, Eq)]
pub struct SourceInfo {
    /// Global identifier of the entity that produced the sample.
    pub source: EntityGlobalId,
    /// Sequence number of the sample at its source.
    pub sn: u32,
}

/// What a sample holds, field by field.
pub ghost struct SampleView {
    pub key_expr: Seq<char>,
    pub payload: Seq<u8>,
    pub encoding: EncodingView,
    pub kind: SampleKind,
    pub timestamp: Option<TimestampView>,
    pub express: bool,
    pub priority: Priority,
    pub congestion_control: CongestionControl,
    pub attachment: Option<Seq<u8>>,
    pub reliability: Reliability,
    pub source_info: Option<SourceInfo>,
    pub timestamp_stack: Option<zenoh::timestamp_stack::TimestampStack>,
}

pub open spec fn opt_zbytes_view(b: Option<ZBytes>) -> Option<Seq<u8>> {
    match b {
        Some(z) => Some(z@),
        None => None,
    }
}

pub open spec fn opt_timestamp_view(t: Option<Timestamp>) -> Option<TimestampView> {
    match t {
        Some(v) => Some(v@),
        None => None,
    }
}

pub(crate) fn clone_opt_zbytes(b: &Option<ZBytes>) -> (r: Option<ZBytes>)
    ensures
        opt_zbytes_view(r) == opt_zbytes_view(*b),
{
    match b {
        Some(z) => Some(z.clone()),
        None => None,
    }
}

pub(crate) fn clone_opt_timestamp(t: &Option<Timestamp>) -> (r: Option<Timestamp>)
    ensures
        opt_timestamp_view(r) == opt_timestamp_view(*t),
{
    match t {
        Some(v) => Some(v.clone()),
        None => None,
    }
}

/// A sample: a key expression, a payload and the metadata that travel with
/// them. Read it field by field through the `sample_get_*` accessors, or as a
/// whole through its value form [`SampleStruct`].
#[derive(Debug, PartialEq, Eq)]
pub struct Sample {
    key_expr: KeyExpr,
    payload: ZBytes,
    encoding: Encoding,
    kind: SampleKind,
    timestamp: Option<Timestamp>,
    express: bool,
    priority: Priority,
    congestion_control: CongestionControl,
    attachment: Option<ZBytes>,
    reliability: Reliability,
    source_info: Option<SourceInfo>,
    timestamp_stack: Option<zenoh::timestamp_stack::TimestampStack>,
}

/// The native sample handle of the thin surface; the same type.
pub type ZSample = Sample;

impl View for Sample {
    type V = SampleView;

    closed spec fn view(&self) -> SampleView {
        SampleView {
            key_expr: self.key_expr@,
            payload: self.payload@,
            encoding: self.encoding@,
            kind: self.kind,
            timestamp: opt_timestamp_view(self.timestamp),
            express: self.express,
            priority: self.priority,
            congestion_control: self.congestion_control,
            attachment: opt_zbytes_view(self.attachment),
            reliability: self.reliability,
            source_info: self.source_info,
            timestamp_stack: self.timestamp_stack,
        }
    }
}

/// A sample decomposed into its fields as a value form.
///
/// Fields whose type is a handle stay handles, so taking a sample apart
/// never copies a nested payload into another form.
#[derive(Debug, PartialEq, Eq)]
pub struct SampleStruct {
    /// Key expression on which the sample was published.
    pub key_expr: KeyExpr,
    /// Sample payload.
    pub payload: ZBytes,
    /// Format information associated with the payload.
    pub encoding: Encoding,
    /// Whether the sample publishes a value or announces a deletion.
    pub kind: SampleKind,
    /// Publication timestamp, when present.
    pub timestamp: Option<Timestamp>,
    /// Whether express delivery was requested.
    pub express: bool,
    /// Delivery priority.
    pub priority: Priority,
    /// Congestion-control policy used for the sample.
    pub congestion_control: CongestionControl,
    /// User-defined metadata associated with the sample, when present.
    pub attachment: Option<ZBytes>,
    /// Reliability policy used to deliver the sample.
    pub reliability: Reliability,
    /// Source information, when known.
    pub source_info: Option<SourceInfo>,
    /// Timestamps accumulated along the sample's path, when instrumentation
    /// recorded any.
    pub timestamp_stack: Option<zenoh::timestamp_stack::TimestampStack>,
}

impl View for SampleStruct {
    type V = SampleView;

    open spec fn view(&self) -> SampleView {
        SampleView {
            key_expr: self.key_expr@,
            payload: self.payload@,
            encoding: self.encoding@,
            kind: self.kind,
            timestamp: opt_timestamp_view(self.timestamp),
            express: self.express,
            priority: self.priority,
            congestion_control: self.congestion_control,
            attachment: opt_zbytes_view(self.attachment),
            reliability: self.reliability,
            source_info: self.source_info,
            timestamp_stack: self.timestamp_stack,
        }
    }
}

impl Clone for Sample {
    fn clone(&self) -> (r: Self)
        ensures
            r@ == self@,
    {
        Sample {
            key_expr: self.key_expr.clone(),
            payload: self.payload.clone(),
            encoding: self.encoding.clone(),
            kind: self.kind,
            timestamp: clone_opt_timestamp(&self.timestamp),
            express: self.express,
            priority: self.priority,
            congestion_control: self.congestion_control,
            attachment: clone_opt_zbytes(&self.attachment),
            reliability: self.reliability,
            source_info: self.source_info,
            timestamp_stack: clone_opt_timestamp_stack(&self.timestamp_stack),
        }
    }
}

impl Clone for SampleStruct {
    fn clone(&self) -> (r: Self)
        ensures
            r@ == self@,
    {
        SampleStruct {
            key_expr: self.key_expr.clone(),
            payload: self.payload.clone(),
            encoding: self.encoding.clone(),
            kind: self.kind,
            timestamp: clone_opt_timestamp(&self.timestamp),
            express: self.express,
            priority: self.priority,
            congestion_control: self.congestion_control,
            attachment: clone_opt_zbytes(&self.attachment),
            reliability: self.reliability,
            source_info: self.source_info,
            timestamp_stack: clone_opt_timestamp_stack(&self.timestamp_stack),
        }
    }
}

/// The encoding a built sample carries: the one given, or zenoh's default
/// (id 0, no schema).
pub open spec fn encoding_or_default(e: Option<EncodingView>) -> EncodingView {
    match e {
        Some(v) => v,
        None => EncodingView { id: 0, schema: None },
    }
}

pub open spec fn opt_encoding_view(e: Option<&Encoding>) -> Option<EncodingView> {
    match e {
        Some(v) => Some(v@),
        None => None,
    }
}

/// What a sample built by zenoh's `SampleBuilder` holds: the given fields,
/// zenoh's defaults for the options left out (default encoding, `Drop`,
/// `Data`, not express, `Reliable`), no source information and no timestamp
/// stack.
pub open spec fn built_sample(
    kind: SampleKind,
    key_expr: Seq<char>,
    payload: Seq<u8>,
    encoding: Option<EncodingView>,
    timestamp: Option<TimestampView>,
    attachment: Option<Seq<u8>>,
    congestion_control: Option<CongestionControl>,
    priority: Option<Priority>,
    express: Option<bool>,
    reliability: Option<Reliability>,
) -> SampleView {
    SampleView {
        key_expr,
        payload,
        encoding: encoding_or_default(encoding),
        kind,
        timestamp,
        express: match express { Some(v) => v, None => false },
        priority: match priority { Some(p) => p, None => Priority::Data },
        congestion_control: match congestion_control { Some(c) => c, None => CongestionControl::Drop },
        attachment,
        reliability: match reliability { Some(r) => r, None => Reliability::Reliable },
        source_info: None,
        timestamp_stack: None,
    }
}

/// Whether a sample carries what it was built from: the kind, key
/// expression, payload and attachment as given; the encoding and each
/// delivery setting as given when supplied, and otherwise zenoh's default
/// (encoding id 0 without schema, `Drop`, `Data`, not express, `Reliable`);
/// no source information and no timestamp stack.
pub open spec fn sample_takes_inputs(
    s: SampleView,
    kind: SampleKind,
    key_expr: Seq<char>,
    payload: Seq<u8>,
    encoding: Option<EncodingView>,
    attachment: Option<Seq<u8>>,
    congestion_control: Option<CongestionControl>,
    priority: Option<Priority>,
    express: Option<bool>,
    reliability: Option<Reliability>,
) -> bool {
    &&& s.kind == kind
    &&& s.key_expr == key_expr
    &&& s.payload == payload
    &&& s.attachment == attachment
    &&& (encoding matches Some(e) ==> s.encoding == e)
    &&& (encoding is None ==> s.encoding.id == 0 && s.encoding.schema is None)
    &&& (congestion_control matches Some(c) ==> s.congestion_control == c)
    &&& (congestion_control is None ==> s.congestion_control == CongestionControl::Drop)
    &&& (priority matches Some(p) ==> s.priority == p)
    &&& (priority is None ==> s.priority == Priority::Data)
    &&& (express matches Some(x) ==> s.express == x)
    &&& (express is None ==> !s.express)
    &&& (reliability matches Some(x) ==> s.reliability == x)
    &&& (reliability is None ==> s.reliability == Reliability::Reliable)
    &&& s.source_info is None
    &&& s.timestamp_stack is None
}

/// A sample built from inputs carries them: a supplied encoding whole, id
/// and schema; each supplied delivery setting as given; zenoh's default for
/// each one left out; the timestamp it was given.
pub proof fn law_built_sample_takes_inputs(
    kind: SampleKind,
    key_expr: Seq<char>,
    payload: Seq<u8>,
    encoding: Option<EncodingView>,
    timestamp: Option<TimestampView>,
    attachment: Option<Seq<u8>>,
    congestion_control: Option<CongestionControl>,
    priority: Option<Priority>,
    express: Option<bool>,
    reliability: Option<Reliability>,
)
    ensures
        sample_takes_inputs(
            built_sample(kind, key_expr, payload, encoding, timestamp, attachment,
                congestion_control, priority, express, reliability),
            kind, key_expr, payload, encoding, attachment, congestion_control, priority, express,
            reliability,
        ),
        built_sample(kind, key_expr, payload, encoding, timestamp, attachment, congestion_control,
            priority, express, reliability).timestamp == timestamp,
        forall|v: EncodingView| encoding == Some(v) ==> #[trigger] encoding_or_default(Some(v)) == v,
{
}

/// The stored form of an optional timestamp value.
pub open spec fn opt_timestamp_normalized(t: Option<Timestamp>) -> Option<TimestampView> {
    match t {
        Some(v) => Some(timestamp_normalized(v@)),
        None => None,
    }
}

/// Whether an optional timestamp value is acceptable to zenoh.
pub open spec fn opt_timestamp_ok(t: Option<Timestamp>) -> bool {
    match t {
        Some(v) => timestamp_id_valid(v.id@),
        None => true,
    }
}

/// A timestamp given to [`sample_new_put`] or [`sample_new_delete`] is read
/// back by [`sample_get_timestamp`] exactly as given, clock id included,
/// whenever zenoh accepts it and its id does not end with a zero byte (zenoh
/// keeps only an id's significant bytes).
pub proof fn law_timestamp_kept_as_given(t: Timestamp)
    requires
        timestamp_id_valid(t.id@),
        t.id@.last() != 0,
    ensures
        opt_timestamp_ok(Some(t)),
        opt_timestamp_normalized(Some(t)) == Some(t@),
{
    assert(t.id@.len() > 0);
    assert(trim_trailing_zeros(t.id@) == t.id@);
}

#[verifier::rlimit(30)]
fn sample_build(
    kind: SampleKind,
    key_expr: KeyExpr,
    payload: ZBytes,
    encoding: Option<&Encoding>,
    timestamp: Option<Timestamp>,
    attachment: Option<ZBytes>,
    congestion_control: Option<CongestionControl>,
    priority: Option<Priority>,
    express: Option<bool>,
    reliability: Option<Reliability>,
) -> (r: Sample)
    ensures
        r@ == built_sample(kind, key_expr@, payload@, opt_encoding_view(encoding),
            opt_timestamp_view(timestamp), opt_zbytes_view(attachment), congestion_control,
            priority, express, reliability),
        sample_takes_inputs(r@, kind, key_expr@, payload@, opt_encoding_view(encoding),
            opt_zbytes_view(attachment), congestion_control, priority, express, reliability),
        encoding matches Some(e) ==> r@.encoding == e@,
        r@.timestamp == opt_timestamp_view(timestamp),
{
    let encoding = match encoding {
        Some(e) => e.clone(),
        None => base_default_encoding(),
    };
    let congestion_control = match congestion_control {
        Some(c) => c,
        None => base_default_congestion_control(),
    };
    let priority = match priority {
        Some(p) => p,
        None => base_default_priority(),
    };
    let express = match express {
        Some(v) => v,
        None => false,
    };
    let reliability = match reliability {
        Some(r) => r,
        None => base_default_reliability(),
    };
    Sample {
        key_expr,
        payload,
        encoding,
        kind,
        timestamp,
        express,
        priority,
        congestion_control,
        attachment,
        reliability,
        source_info: None,
        timestamp_stack: None,
    }
}

fn timestamp_validate_opt(t: Option<Timestamp>) -> (r: Result<Option<Timestamp>, Error>)
    ensures
        r is Ok <==> opt_timestamp_ok(t),
        r matches Ok(v) ==> opt_timestamp_view(v) == opt_timestamp_normalized(t),
{
    match t {
        Some(ts) => match timestamp_validate(ts) {
            Ok(v) => Ok(Some(v)),
            Err(e) => Err(e),
        },
        None => Ok(None),
    }
}

/// Create a sample that publishes a value.
///
/// Optional arguments specify the payload format, timestamp, attachment, and
/// delivery quality; zenoh's defaults fill in the ones left out. A supplied
/// timestamp is used as given, node id included, except that zenoh keeps
/// only the id's significant bytes (trailing zero bytes are dropped); it is
/// refused when zenoh does not accept its id.
pub fn sample_new_put(
    key_expr: KeyExpr,
    payload: ZBytes,
    encoding: Option<&Encoding>,
    timestamp: Option<Timestamp>,
    attachment: Option<ZBytes>,
    congestion_control: Option<CongestionControl>,
    priority: Option<Priority>,
    express: Option<bool>,
    reliability: Option<Reliability>,
) -> (r: Result<Sample, Error>)
    ensures
        r is Ok <==> opt_timestamp_ok(timestamp),
        r matches Ok(s) ==> s@ == built_sample(SampleKind::Put, key_expr@, payload@,
            opt_encoding_view(encoding), opt_timestamp_normalized(timestamp),
            opt_zbytes_view(attachment), congestion_control, priority, express, reliability),
        r matches Ok(s) ==> sample_takes_inputs(s@, SampleKind::Put, key_expr@, payload@,
            opt_encoding_view(encoding), opt_zbytes_view(attachment), congestion_control, priority,
            express, reliability),
        r matches Ok(s) ==> (encoding matches Some(e) ==> s@.encoding == e@),
{
    let ts = timestamp_validate_opt(timestamp)?;
    Ok(sample_build(SampleKind::Put, key_expr, payload, encoding, ts, attachment,
        congestion_control, priority, express, reliability))
}

/// Create a sample that announces a deletion.
///
/// A delete sample has an empty payload and the default encoding. Optional
/// arguments specify its timestamp, attachment, and delivery quality. A
/// supplied timestamp is used as given, except that zenoh drops trailing
/// zero bytes of its id; it is refused when zenoh does not accept its id.
pub fn sample_new_delete(
    key_expr: KeyExpr,
    timestamp: Option<Timestamp>,
    attachment: Option<ZBytes>,
    congestion_control: Option<CongestionControl>,
    priority: Option<Priority>,
    express: Option<bool>,
    reliability: Option<Reliability>,
) -> (r: Result<Sample, Error>)
    ensures
        r is Ok <==> opt_timestamp_ok(timestamp),
        r matches Ok(s) ==> s@ == built_sample(SampleKind::Delete, key_expr@, Seq::empty(),
            None, opt_timestamp_normalized(timestamp), opt_zbytes_view(attachment),
            congestion_control, priority, express, reliability),
        r matches Ok(s) ==> sample_takes_inputs(s@, SampleKind::Delete, key_expr@, Seq::empty(),
            None, opt_zbytes_view(attachment), congestion_control, priority, express, reliability),
{
    let ts = timestamp_validate_opt(timestamp)?;
    let empty = crate::bytes::zbytes_new_from_vec(Vec::new());
    Ok(sample_build(SampleKind::Delete, key_expr, empty, None, ts, attachment,
        congestion_control, priority, express, reliability))
}

pub open spec fn opt_ref_zbytes_view(b: Option<&ZBytes>) -> Option<Seq<u8>> {
    match b {
        Some(z) => Some(z@),
        None => None,
    }
}

pub open spec fn opt_ref_timestamp_view(t: Option<&Timestamp>) -> Option<TimestampView> {
    match t {
        Some(v) => Some(v@),
        None => None,
    }
}

/// Return the key expression on which the sample was published.
pub fn sample_get_key_expr(s: &Sample) -> (r: &KeyExpr)
    ensures
        r@ == s@.key_expr,
{
    &s.key_expr
}

/// Return the sample payload.
pub fn sample_get_payload(s: &Sample) -> (r: &ZBytes)
    ensures
        r@ == s@.payload,
{
    &s.payload
}

/// Return format information associated with the payload.
pub fn sample_get_encoding(s: &Sample) -> (r: &Encoding)
    ensures
        r@ == s@.encoding,
{
    &s.encoding
}

/// Return whether the sample publishes a value or announces a deletion.
pub fn sample_get_kind(s: &Sample) -> (r: SampleKind)
    ensures
        r == s@.kind,
{
    s.kind
}

/// Return the publication timestamp, when present.
pub fn sample_get_timestamp(s: &Sample) -> (r: Option<Timestamp>)
    ensures
        opt_timestamp_view(r) == s@.timestamp,
{
    clone_opt_timestamp(&s.timestamp)
}

/// Return whether express delivery was requested.
pub fn sample_get_express(s: &Sample) -> (r: bool)
    ensures
        r == s@.express,
{
    s.express
}

/// Return the sample's delivery priority.
pub fn sample_get_priority(s: &Sample) -> (r: Priority)
    ensures
        r == s@.priority,
{
    s.priority
}

/// Return the congestion-control policy used for the sample.
pub fn sample_get_congestion_control(s: &Sample) -> (r: CongestionControl)
    ensures
        r == s@.congestion_control,
{
    s.congestion_control
}

/// Return user-defined metadata associated with the sample, when present.
pub fn sample_get_attachment(s: &Sample) -> (r: Option<&ZBytes>)
    ensures
        opt_ref_zbytes_view(r) == s@.attachment,
{
    match &s.attachment {
        Some(a) => Some(a),
        None => None,
    }
}

/// Return the reliability policy used to deliver the sample.
pub fn sample_get_reliability(s: &Sample) -> (r: Reliability)
    ensures
        r == s@.reliability,
{
    s.reliability
}

/// Return the timestamps this sample accumulated along its path, when
/// instrumentation recorded any.
pub fn sample_get_timestamp_stack(s: &Sample) -> (r: Option<&zenoh::timestamp_stack::TimestampStack>)
    ensures
        r == (match s@.timestamp_stack {
            Some(t) => Some(&t),
            None => None::<&zenoh::timestamp_stack::TimestampStack>,
        }),
{
    match &s.timestamp_stack {
        Some(t) => Some(t),
        None => None,
    }
}

/// Return the source information of the sample, when known.
pub fn sample_get_source_info(s: &Sample) -> (r: Option<SourceInfo>)
    ensures
        r == s@.source_info,
{
    s.source_info
}

/// Decompose a sample into its [`SampleStruct`] value form, consuming it:
/// each field moves into the value form.
pub fn sample_into_struct(s: Sample) -> (r: SampleStruct)
    ensures
        r@ == s@,
{
    SampleStruct {
        key_expr: s.key_expr,
        payload: s.payload,
        encoding: s.encoding,
        kind: s.kind,
        timestamp: s.timestamp,
        express: s.express,
        priority: s.priority,
        congestion_control: s.congestion_control,
        attachment: s.attachment,
        reliability: s.reliability,
        source_info: s.source_info,
        timestamp_stack: s.timestamp_stack,
    }
}

/// Decompose a sample into its [`SampleStruct`] value form: the consuming
/// form applied to a copy of the sample.
pub fn sample_to_struct(s: &Sample) -> (r: SampleStruct)
    ensures
        r@ == s@,
{
    sample_into_struct(s.clone())
}

/// Rebuild a sample from its value form; the inverse of
/// [`sample_into_struct`]. This is how a sample that zenoh delivers enters
/// the library.
pub fn sample_from_struct(st: SampleStruct) -> (r: Sample)
    ensures
        r@ == st@,
{
    Sample {
        key_expr: st.key_expr,
        payload: st.payload,
        encoding: st.encoding,
        kind: st.kind,
        timestamp: st.timestamp,
        express: st.express,
        priority: st.priority,
        congestion_control: st.congestion_control,
        attachment: st.attachment,
        reliability: st.reliability,
        source_info: st.source_info,
        timestamp_stack: st.timestamp_stack,
    }
}

// ── Thin surface ────────────────────────────────────────────────────────

/// A timestamp with the given NTP64 component (the bits of `ntp`) and a
/// fresh random clock id.
fn timestamp_with_random_id(ntp: i64) -> (r: Timestamp)
    ensures
        r.ntp64 == ntp as u64,
        timestamp_id_valid(r.id@),
        trim_trailing_zeros(r.id@) == r.id@,
{
    Timestamp { ntp64: ntp as u64, id: base_timestamp_id_rand() }
}

/// Whether an optional stored timestamp has the NTP64 component `ntp` (taken
/// as its bits) and some valid clock id.
pub open spec fn timestamp_from_ntp64(t: Option<TimestampView>, ntp: Option<i64>) -> bool {
    match ntp {
        Some(n) => t matches Some(v) && v.ntp64 == n as u64 && timestamp_id_valid(v.id),
        None => t is None,
    }
}

fn timestamp_opt_from_ntp64(ntp: Option<i64>) -> (r: Option<Timestamp>)
    ensures
        timestamp_from_ntp64(opt_timestamp_view(r), ntp),
{
    match ntp {
        Some(n) => Some(timestamp_with_random_id(n)),
        None => None,
    }
}

/// Build a put sample from its key expression, payload, and optional
/// metadata. A timestamp is built from its NTP64 component and a random
/// clock id.
pub fn z_sample_put(
    key_expr: KeyExpr,
    payload: ZBytes,
    encoding: Option<&Encoding>,
    timestamp_ntp64: Option<i64>,
    attachment: Option<ZBytes>,
    congestion_control: Option<CongestionControl>,
    priority: Option<Priority>,
    express: Option<bool>,
    reliability: Option<Reliability>,
) -> (r: ZSample)
    ensures
        timestamp_from_ntp64(r@.timestamp, timestamp_ntp64),
        r@ == built_sample(SampleKind::Put, key_expr@, payload@, opt_encoding_view(encoding),
            r@.timestamp, opt_zbytes_view(attachment), congestion_control, priority, express,
            reliability),
        sample_takes_inputs(r@, SampleKind::Put, key_expr@, payload@, opt_encoding_view(encoding),
            opt_zbytes_view(attachment), congestion_control, priority, express, reliability),
        encoding matches Some(e) ==> r@.encoding == e@,
{
    let ts = timestamp_opt_from_ntp64(timestamp_ntp64);
    sample_build(SampleKind::Put, key_expr, payload, encoding, ts, attachment,
        congestion_control, priority, express, reliability)
}

/// Build a delete sample from its key expression and optional metadata.
pub fn z_sample_delete(
    key_expr: KeyExpr,
    timestamp_ntp64: Option<i64>,
    attachment: Option<ZBytes>,
    congestion_control: Option<CongestionControl>,
    priority: Option<Priority>,
    express: Option<bool>,
    reliability: Option<Reliability>,
) -> (r: ZSample)
    ensures
        timestamp_from_ntp64(r@.timestamp, timestamp_ntp64),
        r@ == built_sample(SampleKind::Delete, key_expr@, Seq::empty(), None, r@.timestamp,
            opt_zbytes_view(attachment), congestion_control, priority, express, reliability),
        sample_takes_inputs(r@, SampleKind::Delete, key_expr@, Seq::empty(), None,
            opt_zbytes_view(attachment), congestion_control, priority, express, reliability),
{
    let ts = timestamp_opt_from_ntp64(timestamp_ntp64);
    let empty = crate::bytes::zbytes_new_from_vec(Vec::new());
    sample_build(SampleKind::Delete, key_expr, empty, None, ts, attachment,
        congestion_control, priority, express, reliability)
}

/// Key expression the sample was published on.
pub fn z_sample_key_expr(s: &ZSample) -> (r: &KeyExpr)
    ensures
        r@ == s@.key_expr,
{
    sample_get_key_expr(s)
}

/// Sample payload.
pub fn z_sample_payload(s: &ZSample) -> (r: &ZBytes)
    ensures
        r@ == s@.payload,
{
    sample_get_payload(s)
}

/// Encoding of the payload.
pub fn z_sample_encoding(s: &ZSample) -> (r: &Encoding)
    ensures
        r@ == s@.encoding,
{
    sample_get_encoding(s)
}

/// Whether the sample is a put or a delete.
pub fn z_sample_kind(s: &ZSample) -> (r: SampleKind)
    ensures
        r == s@.kind,
{
    sample_get_kind(s)
}

/// Timestamp, or `None` when the sample carries no timestamp.
pub fn z_sample_timestamp(s: &ZSample) -> (r: Option<&Timestamp>)
    ensures
        opt_ref_timestamp_view(r) == s@.timestamp,
{
    match &s.timestamp {
        Some(t) => Some(t),
        None => None,
    }
}

/// Express flag.
pub fn z_sample_express(s: &ZSample) -> (r: bool)
    ensures
        r == s@.express,
{
    sample_get_express(s)
}

/// Priority.
pub fn z_sample_priority(s: &ZSample) -> (r: Priority)
    ensures
        r == s@.priority,
{
    sample_get_priority(s)
}

/// Congestion-control policy.
pub fn z_sample_congestion_control(s: &ZSample) -> (r: CongestionControl)
    ensures
        r == s@.congestion_control,
{
    sample_get_congestion_control(s)
}

/// Optional user attachment.
pub fn z_sample_attachment(s: &ZSample) -> (r: Option<&ZBytes>)
    ensures
        opt_ref_zbytes_view(r) == s@.attachment,
{
    sample_get_attachment(s)
}

/// Reliability policy the sample was delivered with.
pub fn z_sample_reliability(s: &ZSample) -> (r: Reliability)
    ensures
        r == s@.reliability,
{
    sample_get_reliability(s)
}

/// Node id of the source entity that produced the sample, or `None` when the
/// sample carries no source information.
pub fn z_sample_source_zid(s: &ZSample) -> (r: Option<ZenohId>)
    ensures
        r == (match s@.source_info {
            Some(si) => Some(si.source.zid),
            None => None::<ZenohId>,
        }),
{
    match s.source_info {
        Some(si) => Some(si.source.zid),
        None => None,
    }
}

/// Entity id of the sample's source (its bits as an `i32`), 0 when the
/// sample carries no source information.
pub fn z_sample_source_eid(s: &ZSample) -> (r: i32)
    ensures
        r == (match s@.source_info {
            Some(si) => si.source.eid as i32,
            None => 0i32,
        }),
{
    match s.source_info {
        Some(si) => si.source.eid as i32,
        None => 0,
    }
}

/// Source sequence number of the sample, 0 when the sample carries no source
/// information.
pub fn z_sample_source_sn(s: &ZSample) -> (r: i64)
    ensures
        r == (match s@.source_info {
            Some(si) => si.sn as i64,
            None => 0i64,
        }),
{
    match s.source_info {
        Some(si) => si.sn as i64,
        None => 0,
    }
}

} // verus!
