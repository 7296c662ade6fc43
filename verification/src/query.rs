//! Queries, their replies, and the settings a query is sent with.
use vstd::prelude::*;
use crate::bytes::{ZBytes, Encoding, EncodingView};
use crate::keyexpr::KeyExpr;
use crate::qos::{CongestionControl, Priority};
use crate::sample::{Sample, SampleView, SourceInfo, opt_zbytes_view, opt_ref_zbytes_view,
    clone_opt_zbytes, clone_opt_timestamp_stack};
use crate::zenoh_id::{EntityGlobalId, ZenohId};

verus! {

/// The policy used to combine replies from multiple queryables.
#[derive(Debug, Clone, Copy, PartialEq, Eq, Structural)]
pub enum ConsolidationMode {
    /// Let Zenoh choose an appropriate consolidation policy.
    Auto,
    /// Deliver every reply without consolidation (zenoh's `None` mode).
    NoConsolidation,
    /// Deliver replies in monotonic timestamp order for each key expression.
    Monotonic,
    /// Keep only the latest reply for each key expression.
    Latest,
}

/// The set of queryables that should receive a query.
#[derive(Debug, Clone, Copy, PartialEq, Eq, Structural)]
pub enum QueryTarget {
    /// Let Zenoh choose the most appropriate queryable targets.
    BestMatching,
    /// Send the query to every matching queryable.
    All,
    /// Send the query to all complete queryables and the best matching
    /// incomplete queryable.
    AllComplete,
}

/// Whether replies may use key expressions that do not match the query.
#[derive(Debug, Clone, Copy, PartialEq, Eq, Structural)]
pub enum ReplyKeyExpr {
    /// Accept replies with any key expression.
    Any,
    /// Accept only replies whose key expressions match the query.
    MatchingQuery,
}

/// A key expression together with the parameters that refine a selection.
///
/// `key_expr` identifies which keys are part of the selection and
/// `parameters` refines which values are of interest; empty parameters select
/// everything matched by `key_expr`.
#[derive(Debug, PartialEq, Eq)]
pub struct Selector {
    /// The key expression identifying which keys are part of the selection.
    pub key_expr: KeyExpr,
    /// The parameters refining the selection (see the `parameters_*` functions).
    pub parameters: String,
}

impl Clone for Selector {
    fn clone(&self) -> (r: Self)
        ensures
            r.key_expr@ == self.key_expr@,
            r.parameters@ == self.parameters@,
    {
        Selector { key_expr: self.key_expr.clone(), parameters: self.parameters.clone() }
    }
}

// ── Queries ─────────────────────────────────────────────────────────────

/// What a received query carries: the selection it asks for, its optional
/// payload, and the settings it was sent with.
#[derive(Debug)]
pub struct Query {
    /// Key expression the query targets.
    pub key_expr: KeyExpr,
    /// Parameters refining the query selector.
    pub parameters: String,
    /// Query payload, when present.
    pub payload: Option<ZBytes>,
    /// Format information for the payload, when present.
    pub encoding: Option<Encoding>,
    /// User-defined metadata, when present.
    pub attachment: Option<ZBytes>,
    /// Policy for accepted reply key expressions.
    pub accepts_replies: ReplyKeyExpr,
    /// Congestion-control policy the query was sent with.
    pub congestion_control: CongestionControl,
    /// Priority the query was sent with.
    pub priority: Priority,
    /// Whether express delivery was requested.
    pub express: bool,
    /// Information about the issuing entity, when known.
    pub source_info: Option<SourceInfo>,
    /// Timestamps accumulated along the query's path, when recorded.
    pub timestamp_stack: Option<zenoh::timestamp_stack::TimestampStack>,
}

/// The native query handle of the thin surface; the same type.
pub type ZQuery = Query;

/// Return the key expression targeted by the query.
pub fn query_get_key_expr(q: &Query) -> (r: &KeyExpr)
    ensures
        r@ == q.key_expr@,
{
    &q.key_expr
}

/// Return the parameters that refine the query selector.
pub fn query_get_parameters(q: &Query) -> (r: String)
    ensures
        r@ == q.parameters@,
{
    q.parameters.clone()
}

/// Return the query payload, when present.
pub fn query_get_payload(q: &Query) -> (r: Option<&ZBytes>)
    ensures
        opt_ref_zbytes_view(r) == opt_zbytes_view(q.payload),
{
    match &q.payload {
        Some(p) => Some(p),
        None => None,
    }
}

/// Return format information for the query payload, when present.
pub fn query_get_encoding(q: &Query) -> (r: Option<&Encoding>)
    ensures
        r is Some <==> q.encoding is Some,
        r matches Some(e) ==> e@ == q.encoding.unwrap()@,
{
    match &q.encoding {
        Some(e) => Some(e),
        None => None,
    }
}

/// Return user-defined metadata associated with the query, when present.
pub fn query_get_attachment(q: &Query) -> (r: Option<&ZBytes>)
    ensures
        opt_ref_zbytes_view(r) == opt_zbytes_view(q.attachment),
{
    match &q.attachment {
        Some(a) => Some(a),
        None => None,
    }
}

/// Return the policy for accepted reply key expressions.
pub fn query_get_accepts_replies(q: &Query) -> (r: ReplyKeyExpr)
    ensures
        r == q.accepts_replies,
{
    q.accepts_replies
}

/// Return the congestion-control policy the query was sent with.
pub fn query_get_congestion_control(q: &Query) -> (r: CongestionControl)
    ensures
        r == q.congestion_control,
{
    q.congestion_control
}

/// Return the priority the query was sent with.
pub fn query_get_priority(q: &Query) -> (r: Priority)
    ensures
        r == q.priority,
{
    q.priority
}

/// Return whether the query requested express delivery.
pub fn query_get_express(q: &Query) -> (r: bool)
    ensures
        r == q.express,
{
    q.express
}

/// Return information about the entity that issued the query, when known.
pub fn query_get_source_info(q: &Query) -> (r: Option<SourceInfo>)
    ensures
        r == q.source_info,
{
    q.source_info
}

/// Return the timestamps this query accumulated along its path, when
/// instrumentation recorded any.
pub fn query_get_timestamp_stack(q: &Query) -> (r: Option<&zenoh::timestamp_stack::TimestampStack>)
    ensures
        r == (match q.timestamp_stack {
            Some(t) => Some(&t),
            None => None::<&zenoh::timestamp_stack::TimestampStack>,
        }),
{
    match &q.timestamp_stack {
        Some(t) => Some(t),
        None => None,
    }
}

/// Key expression the query targets.
pub fn z_query_keyexpr(q: &ZQuery) -> (r: &KeyExpr)
    ensures
        r@ == q.key_expr@,
{
    query_get_key_expr(q)
}

/// Query selector parameters as an owned string (empty when none).
pub fn z_query_parameters(q: &ZQuery) -> (r: String)
    ensures
        r@ == q.parameters@,
{
    query_get_parameters(q)
}

/// Query payload, or `None` when the query carries none.
pub fn z_query_payload(q: &ZQuery) -> (r: Option<&ZBytes>)
    ensures
        opt_ref_zbytes_view(r) == opt_zbytes_view(q.payload),
{
    query_get_payload(q)
}

/// Encoding of the query payload, or `None`.
pub fn z_query_encoding(q: &ZQuery) -> (r: Option<&Encoding>)
    ensures
        r is Some <==> q.encoding is Some,
        r matches Some(e) ==> e@ == q.encoding.unwrap()@,
{
    query_get_encoding(q)
}

/// Query attachment, or `None` when the query carries none.
pub fn z_query_attachment(q: &ZQuery) -> (r: Option<&ZBytes>)
    ensures
        opt_ref_zbytes_view(r) == opt_zbytes_view(q.attachment),
{
    query_get_attachment(q)
}

/// Policy describing which key expressions this query accepts in replies.
pub fn z_query_accepts_replies(q: &ZQuery) -> (r: ReplyKeyExpr)
    ensures
        r == q.accepts_replies,
{
    query_get_accepts_replies(q)
}

// ── Replies ─────────────────────────────────────────────────────────────

/// The application error carried by an unsuccessful reply.
#[derive(Debug, PartialEq, Eq)]
pub struct ReplyError {
    payload: ZBytes,
    encoding: Encoding,
}

/// The native reply-error handle of the thin surface; the same type.
pub type ZReplyError = ReplyError;

/// What a reply error holds.
pub ghost struct ReplyErrorView {
    pub payload: Seq<u8>,
    pub encoding: EncodingView,
}

impl View for ReplyError {
    type V = ReplyErrorView;

    closed spec fn view(&self) -> ReplyErrorView {
        ReplyErrorView { payload: self.payload@, encoding: self.encoding@ }
    }
}

impl Clone for ReplyError {
    fn clone(&self) -> (r: Self)
        ensures
            r@ == self@,
    {
        ReplyError { payload: self.payload.clone(), encoding: self.encoding.clone() }
    }
}

/// The application error carried by an unsuccessful reply, as a value form.
#[derive(Debug, PartialEq, Eq)]
pub struct ReplyErrorStruct {
    /// Error payload.
    pub payload: ZBytes,
    /// Format information associated with the error payload.
    pub encoding: Encoding,
}

impl View for ReplyErrorStruct {
    type V = ReplyErrorView;

    open spec fn view(&self) -> ReplyErrorView {
        ReplyErrorView { payload: self.payload@, encoding: self.encoding@ }
    }
}

impl Clone for ReplyErrorStruct {
    fn clone(&self) -> (r: Self)
        ensures
            r@ == self@,
    {
        ReplyErrorStruct { payload: self.payload.clone(), encoding: self.encoding.clone() }
    }
}

/// The outcome of a reply: the sample of a successful reply, or the error of
/// an unsuccessful one. A reply is one or the other, never both and never
/// neither.
#[derive(Debug, PartialEq, Eq)]
pub enum ReplyResult {
    /// The sample carried by a successful reply.
    Sample(Sample),
    /// The error carried by an unsuccessful reply.
    Error(ReplyError),
}

/// What a reply's outcome holds.
pub ghost enum ReplyResultView {
    Sample(SampleView),
    Error(ReplyErrorView),
}

impl View for ReplyResult {
    type V = ReplyResultView;

    open spec fn view(&self) -> ReplyResultView {
        match self {
            ReplyResult::Sample(s) => ReplyResultView::Sample(s@),
            ReplyResult::Error(e) => ReplyResultView::Error(e@),
        }
    }
}

impl Clone for ReplyResult {
    fn clone(&self) -> (r: Self)
        ensures
            r@ == self@,
    {
        match self {
            ReplyResult::Sample(s) => ReplyResult::Sample(s.clone()),
            ReplyResult::Error(e) => ReplyResult::Error(e.clone()),
        }
    }
}

/// A reply to a query.
#[derive(Debug, PartialEq, Eq)]
pub struct Reply {
    result: ReplyResult,
    replier_id: Option<EntityGlobalId>,
}

/// The native reply handle of the thin surface; the same type.
pub type ZReply = Reply;

/// What a reply holds.
pub ghost struct ReplyView {
    pub result: ReplyResultView,
    pub replier_id: Option<EntityGlobalId>,
}

impl View for Reply {
    type V = ReplyView;

    closed spec fn view(&self) -> ReplyView {
        ReplyView { result: self.result@, replier_id: self.replier_id }
    }
}

impl Clone for Reply {
    fn clone(&self) -> (r: Self)
        ensures
            r@ == self@,
    {
        Reply { result: self.result.clone(), replier_id: self.replier_id }
    }
}

/// A reply decomposed into a plain value.
#[derive(Debug, PartialEq, Eq)]
pub struct ReplyStruct {
    /// The reply's outcome: its sample or its error.
    pub result: ReplyResult,
    /// Global identifier of the entity that answered, when known.
    pub replier_id: Option<EntityGlobalId>,
}

impl View for ReplyStruct {
    type V = ReplyView;

    open spec fn view(&self) -> ReplyView {
        ReplyView { result: self.result@, replier_id: self.replier_id }
    }
}

impl Clone for ReplyStruct {
    fn clone(&self) -> (r: Self)
        ensures
            r@ == self@,
    {
        ReplyStruct { result: self.result.clone(), replier_id: self.replier_id }
    }
}

/// Return the global identifier of the entity that answered, when known.
pub fn reply_get_replier_id(r: &Reply) -> (id: Option<EntityGlobalId>)
    ensures
        id == r@.replier_id,
{
    r.replier_id
}

/// Return whether this reply contains a sample rather than an error.
pub fn reply_is_ok(r: &Reply) -> (b: bool)
    ensures
        b == (r@.result is Sample),
{
    match &r.result {
        ReplyResult::Sample(_) => true,
        ReplyResult::Error(_) => false,
    }
}

/// Return the sample carried by a successful reply.
pub fn reply_get_sample(r: &Reply) -> (s: Option<&Sample>)
    ensures
        s is Some <==> r@.result is Sample,
        s matches Some(v) ==> r@.result == ReplyResultView::Sample(v@),
{
    match &r.result {
        ReplyResult::Sample(s) => Some(s),
        ReplyResult::Error(_) => None,
    }
}

/// Return the application error carried by an unsuccessful reply.
pub fn reply_get_err(r: &Reply) -> (e: Option<&ReplyError>)
    ensures
        e is Some <==> r@.result is Error,
        e matches Some(v) ==> r@.result == ReplyResultView::Error(v@),
{
    match &r.result {
        ReplyResult::Sample(_) => None,
        ReplyResult::Error(e) => Some(e),
    }
}

/// Return the error payload.
pub fn reply_error_get_payload(e: &ReplyError) -> (r: &ZBytes)
    ensures
        r@ == e@.payload,
{
    &e.payload
}

/// Return format information associated with the error payload.
pub fn reply_error_get_encoding(e: &ReplyError) -> (r: &Encoding)
    ensures
        r@ == e@.encoding,
{
    &e.encoding
}

/// Decompose a reply error into its value form, field by field through the
/// accessors.
pub fn reply_error_to_struct(e: &ReplyError) -> (r: ReplyErrorStruct)
    ensures
        r@ == e@,
{
    ReplyErrorStruct {
        payload: reply_error_get_payload(e).clone(),
        encoding: reply_error_get_encoding(e).clone(),
    }
}

/// Rebuild a reply error from its value form; the inverse of
/// [`reply_error_to_struct`]. This is how an error zenoh delivers enters the
/// library.
pub fn reply_error_from_struct(st: ReplyErrorStruct) -> (r: ReplyError)
    ensures
        r@ == st@,
{
    ReplyError { payload: st.payload, encoding: st.encoding }
}

/// Decompose a reply into its [`ReplyStruct`] value form.
pub fn reply_to_struct(r: &Reply) -> (st: ReplyStruct)
    ensures
        st@ == r@,
{
    reply_into_struct(r.clone())
}

/// Decompose a reply into its [`ReplyStruct`] value form, consuming it: each
/// field moves into the value form instead of being cloned.
pub fn reply_into_struct(r: Reply) -> (st: ReplyStruct)
    ensures
        st@ == r@,
{
    ReplyStruct { result: r.result, replier_id: r.replier_id }
}

/// Rebuild a reply from its value form; the inverse of [`reply_to_struct`].
/// This is how a reply zenoh delivers enters the library.
pub fn reply_from_struct(st: ReplyStruct) -> (r: Reply)
    ensures
        r@ == st@,
{
    Reply { result: st.result, replier_id: st.replier_id }
}

/// Node id of the entity that answered, or `None` when unknown.
pub fn z_reply_replier_zid(r: &ZReply) -> (z: Option<ZenohId>)
    ensures
        z == (match r@.replier_id {
            Some(id) => Some(id.zid),
            None => None::<ZenohId>,
        }),
{
    match r.replier_id {
        Some(id) => Some(id.zid),
        None => None,
    }
}

/// Entity id of the replier (its bits as an `i32`), 0 when the replier is
/// unknown.
pub fn z_reply_replier_eid(r: &ZReply) -> (e: i32)
    ensures
        e == (match r@.replier_id {
            Some(id) => id.eid as i32,
            None => 0i32,
        }),
{
    match r.replier_id {
        Some(id) => id.eid as i32,
        None => 0,
    }
}

/// `true` if this reply carries a sample, `false` if an error.
pub fn z_reply_is_ok(r: &ZReply) -> (b: bool)
    ensures
        b == (r@.result is Sample),
{
    reply_is_ok(r)
}

/// The reply's sample on success, `None` on error.
pub fn z_reply_sample(r: &ZReply) -> (s: Option<&Sample>)
    ensures
        s is Some <==> r@.result is Sample,
        s matches Some(v) ==> r@.result == ReplyResultView::Sample(v@),
{
    reply_get_sample(r)
}

/// The reply's error on failure, `None` on success.
pub fn z_reply_err(r: &ZReply) -> (e: Option<&ReplyError>)
    ensures
        e is Some <==> r@.result is Error,
        e matches Some(v) ==> r@.result == ReplyResultView::Error(v@),
{
    reply_get_err(r)
}

/// The error's payload.
pub fn z_reply_error_payload(e: &ZReplyError) -> (r: &ZBytes)
    ensures
        r@ == e@.payload,
{
    reply_error_get_payload(e)
}

/// The error's encoding.
pub fn z_reply_error_encoding(e: &ZReplyError) -> (r: &Encoding)
    ensures
        r@ == e@.encoding,
{
    reply_error_get_encoding(e)
}

/// A reply is a success or a failure, never both and never neither: exactly
/// one of [`reply_get_sample`] and [`reply_get_err`] returns a value, and
/// [`reply_is_ok`] says which.
pub proof fn law_reply_is_sample_xor_error(r: ReplyView)
    ensures
        (r.result is Sample) != (r.result is Error),
{
}

/// The encoding a query carries: the given one only together with a
/// payload; without a payload there is nothing for it to describe.
pub fn query_payload_encoding<'a>(payload: &Option<ZBytes>, encoding: Option<&'a Encoding>) -> (r: Option<&'a Encoding>)
    ensures
        r == (if payload is Some { encoding } else { None }),
{
    match payload {
        Some(_) => encoding,
        None => None,
    }
}

/// A selector from a key expression and optional parameters; absent
/// parameters select everything the key expression matches (empty text).
pub fn selector_new(key_expr: KeyExpr, parameters: Option<String>) -> (r: Selector)
    ensures
        r.key_expr@ == key_expr@,
        r.parameters@ == (match parameters {
            Some(p) => p@,
            None => Seq::<char>::empty(),
        }),
{
    let parameters = match parameters {
        Some(p) => p,
        None => String::new(),
    };
    Selector { key_expr, parameters }
}

} // verus!
