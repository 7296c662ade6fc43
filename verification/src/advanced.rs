//! Configuration values for advanced publishers and subscribers.
use vstd::prelude::*;
use std::time::Duration;
use zenoh_ext::RecoveryConfig as ExtRecoveryConfig;
use crate::qos::{CongestionControl, Priority};
use crate::zenoh_id::EntityGlobalId;

verus! {

/// Whether an optional detection setting asks for detection: only an
/// explicit `Some(true)` does; an absent setting leaves detection off.
pub fn detection_requested(o: Option<bool>) -> (r: bool)
    ensures
        r == (o == Some(true)),
{
    match o {
        Some(v) => v,
        None => false,
    }
}

/// Configuration enabling sample-miss detection on an advanced publisher.
///
/// A `heartbeat` period lets advanced subscribers recover the last sample;
/// `None` enables miss detection without a heartbeat.
#[derive(Clone, Copy, Debug, PartialEq, Eq)]
pub struct MissDetectionConfig {
    /// Heartbeat period; `None` = miss detection without a heartbeat.
    pub heartbeat: Option<Duration>,
    /// When a `heartbeat` period is set, whether it is sent sporadically (only
    /// when the last sample changed) rather than periodically.
    pub sporadic: bool,
}

impl Default for MissDetectionConfig {
    fn default() -> (r: Self)
        ensures
            r.heartbeat is None,
            !r.sporadic,
    {
        MissDetectionConfig { heartbeat: None, sporadic: false }
    }
}

/// Delivery quality applied to the replies served from an advanced
/// publisher's cache.
#[derive(Clone, Copy, Debug, PartialEq, Eq)]
pub struct RepliesConfig {
    /// Priority of the cached replies.
    pub priority: Priority,
    /// Congestion control policy for the cached replies.
    pub congestion_control: CongestionControl,
    /// Whether cached replies are sent express (not batched).
    pub is_express: bool,
}

impl Default for RepliesConfig {
    fn default() -> (r: Self)
        ensures
            r.priority == Priority::Data,
            r.congestion_control == CongestionControl::Block,
            !r.is_express,
    {
        RepliesConfig {
            priority: Priority::Data,
            congestion_control: CongestionControl::Block,
            is_express: false,
        }
    }
}

/// Configuration of an advanced publisher's retransmission cache.
#[derive(Clone, Copy, Debug, PartialEq, Eq)]
pub struct CacheConfig {
    /// How many samples to keep for each resource.
    pub max_samples: u64,
    /// Delivery quality applied to the replies served from the cache.
    pub replies_config: RepliesConfig,
}

impl Default for CacheConfig {
    fn default() -> (r: Self)
        ensures
            r.max_samples == 1,
            r.replies_config.priority == Priority::Data,
            r.replies_config.congestion_control == CongestionControl::Block,
            !r.replies_config.is_express,
    {
        CacheConfig { max_samples: 1, replies_config: RepliesConfig::default() }
    }
}

/// How an advanced subscriber recovers missed samples. The modes are
/// mutually exclusive by construction.
#[derive(Clone, Copy, Debug, PartialEq, Eq)]
pub enum RecoveryMode {
    /// Query for not-yet-received samples with this period.
    PeriodicQueries(Duration),
    /// Subscribe to advanced publishers' heartbeats to detect misses.
    Heartbeat,
}

/// Retransmission (missed-sample recovery) configuration for an advanced
/// subscriber.
#[derive(Clone, Copy, Debug, PartialEq, Eq)]
pub struct RecoveryConfig {
    /// Recovery mode; `None` leaves recovery at its defaults.
    pub mode: Option<RecoveryMode>,
    /// How long a publisher's last-sample state is retained for
    /// retransmission; `None` leaves zenoh's default. Independent of `mode`.
    pub retention_period: Option<Duration>,
}

impl Default for RecoveryConfig {
    fn default() -> (r: Self)
        ensures
            r.mode is None,
            r.retention_period is None,
    {
        RecoveryConfig { mode: None, retention_period: None }
    }
}

/// A report of samples missed from one source, delivered to a sample-miss
/// listener.
#[derive(Clone, Copy, Debug, PartialEq, Eq)]
pub struct Miss {
    /// Source of the missed samples.
    pub source: EntityGlobalId,
    /// Number of missed samples.
    pub nb: u32,
}

#[verifier::external_type_specification]
#[verifier::external_body]
pub struct ExExtRecovery<const CONFIGURED: bool>(ExtRecoveryConfig<CONFIGURED>);

/// What zenoh_ext's `RecoveryConfig::periodic_queries` makes of an
/// unconfigured recovery configuration and a query period.
pub uninterp spec fn ext_recovery_periodic_queries(
    c: ExtRecoveryConfig<false>,
    period: Duration,
) -> ExtRecoveryConfig<true>;

/// What zenoh_ext's `RecoveryConfig::heartbeat` makes of an unconfigured
/// recovery configuration.
pub uninterp spec fn ext_recovery_heartbeat(c: ExtRecoveryConfig<false>) -> ExtRecoveryConfig<true>;

/// What zenoh_ext's `RecoveryConfig::retention_period` makes of a recovery
/// configuration and a retention period.
pub uninterp spec fn ext_recovery_retention_period(
    c: ExtRecoveryConfig<true>,
    period: Duration,
) -> ExtRecoveryConfig<true>;

/// zenoh_ext's `RecoveryConfig::<false>::default()`: no recovery mode chosen
/// yet. Nothing is stated of the value.
#[verifier::external_body]
fn base_recovery_unconfigured() -> (r: ExtRecoveryConfig<false>) {
    ExtRecoveryConfig::<false>::default()
}

/// Whether a zenoh_ext recovery configuration chose no mode: it is neither
/// what `heartbeat` nor what `periodic_queries` makes.
pub open spec fn recovery_unmoded(d: ExtRecoveryConfig<true>) -> bool {
    &&& forall|u: ExtRecoveryConfig<false>| #[trigger] ext_recovery_heartbeat(u) != d
    &&& forall|u: ExtRecoveryConfig<false>, p: Duration| #[trigger] ext_recovery_periodic_queries(u, p) != d
}

/// zenoh_ext's `RecoveryConfig::<true>::default()`: recovery at its defaults.
/// Its derived `Default` sets no periodic queries and no heartbeat, while
/// `periodic_queries` sets a period and `heartbeat` sets the heartbeat, so it
/// is neither of their results.
#[verifier::external_body]
fn base_recovery_default() -> (r: ExtRecoveryConfig<true>)
    ensures
        recovery_unmoded(r),
{
    ExtRecoveryConfig::<true>::default()
}

/// zenoh_ext's `RecoveryConfig::periodic_queries`.
#[verifier::external_body]
fn base_recovery_periodic_queries(c: ExtRecoveryConfig<false>, period: Duration) -> (r: ExtRecoveryConfig<true>)
    ensures
        r == ext_recovery_periodic_queries(c, period),
{
    c.periodic_queries(period)
}

/// zenoh_ext's `RecoveryConfig::heartbeat`.
#[verifier::external_body]
fn base_recovery_heartbeat(c: ExtRecoveryConfig<false>) -> (r: ExtRecoveryConfig<true>)
    ensures
        r == ext_recovery_heartbeat(c),
{
    c.heartbeat()
}

/// zenoh_ext's `RecoveryConfig::retention_period`.
#[verifier::external_body]
fn base_recovery_retention_period(c: ExtRecoveryConfig<true>, period: Duration) -> (r: ExtRecoveryConfig<true>)
    ensures
        r == ext_recovery_retention_period(c, period),
{
    c.retention_period(period)
}

/// The zenoh_ext configuration a recovery configuration stands for, given
/// zenoh_ext's unconfigured value `unset` and its default `defaults`: the
/// mode's builder step applied to `unset` (or `defaults` when there is no
/// mode), then the retention period when there is one.
pub open spec fn recovery_built_from(
    r: RecoveryConfig,
    unset: ExtRecoveryConfig<false>,
    defaults: ExtRecoveryConfig<true>,
) -> ExtRecoveryConfig<true> {
    let moded = match r.mode {
        Some(RecoveryMode::PeriodicQueries(period)) => ext_recovery_periodic_queries(unset, period),
        Some(RecoveryMode::Heartbeat) => ext_recovery_heartbeat(unset),
        None => defaults,
    };
    match r.retention_period {
        Some(period) => ext_recovery_retention_period(moded, period),
        None => moded,
    }
}

/// The zenoh_ext recovery configuration for a recovery configuration: every
/// mode reaches its own builder step, none is ignored, and the retention
/// period applies whatever the mode.
pub fn recovery_config_to_base(r: RecoveryConfig) -> (b: ExtRecoveryConfig<true>)
    ensures
        exists|unset: ExtRecoveryConfig<false>, defaults: ExtRecoveryConfig<true>|
            recovery_unmoded(defaults) && b == #[trigger] recovery_built_from(r, unset, defaults),
        r.mode == Some(RecoveryMode::Heartbeat) && r.retention_period is None
            ==> exists|u: ExtRecoveryConfig<false>| b == #[trigger] ext_recovery_heartbeat(u),
        r.mode == Some(RecoveryMode::Heartbeat) && r.retention_period is Some
            ==> exists|u: ExtRecoveryConfig<false>| b == ext_recovery_retention_period(
                #[trigger] ext_recovery_heartbeat(u), r.retention_period->0),
        r.mode matches Some(RecoveryMode::PeriodicQueries(q)) ==> (r.retention_period is None
            ==> exists|u: ExtRecoveryConfig<false>| b == #[trigger] ext_recovery_periodic_queries(u, q)),
        r.mode matches Some(RecoveryMode::PeriodicQueries(q)) ==> (r.retention_period is Some
            ==> exists|u: ExtRecoveryConfig<false>| b == ext_recovery_retention_period(
                #[trigger] ext_recovery_periodic_queries(u, q), r.retention_period->0)),
        r.mode is None && r.retention_period is None ==> recovery_unmoded(b),
        r.mode is None && r.retention_period is Some
            ==> exists|d: ExtRecoveryConfig<true>| recovery_unmoded(d)
                && b == #[trigger] ext_recovery_retention_period(d, r.retention_period->0),
{
    let unset = base_recovery_unconfigured();
    let defaults = base_recovery_default();
    let moded = match r.mode {
        Some(RecoveryMode::PeriodicQueries(period)) => base_recovery_periodic_queries(unset, period),
        Some(RecoveryMode::Heartbeat) => base_recovery_heartbeat(unset),
        None => defaults,
    };
    let b = match r.retention_period {
        Some(period) => base_recovery_retention_period(moded, period),
        None => moded,
    };
    assert(b == recovery_built_from(r, unset, defaults));
    b
}

/// The retention period is applied on top of what the mode alone gives,
/// whatever the mode; and each mode reaches its own builder step: a
/// heartbeat configuration is what `heartbeat` makes, a periodic one what
/// `periodic_queries` makes with its period, and no mode keeps the defaults.
pub proof fn law_recovery_retention_on_top_of_mode(
    mode: Option<RecoveryMode>,
    period: Duration,
    unset: ExtRecoveryConfig<false>,
    defaults: ExtRecoveryConfig<true>,
)
    ensures
        recovery_built_from(RecoveryConfig { mode, retention_period: Some(period) }, unset, defaults)
            == ext_recovery_retention_period(
                recovery_built_from(RecoveryConfig { mode, retention_period: None }, unset, defaults),
                period,
            ),
        recovery_built_from(RecoveryConfig { mode: Some(RecoveryMode::Heartbeat), retention_period: None }, unset, defaults)
            == ext_recovery_heartbeat(unset),
        recovery_built_from(RecoveryConfig { mode: Some(RecoveryMode::PeriodicQueries(period)), retention_period: None }, unset, defaults)
            == ext_recovery_periodic_queries(unset, period),
        recovery_built_from(RecoveryConfig { mode: None, retention_period: None }, unset, defaults) == defaults,
{
}

} // verus!
