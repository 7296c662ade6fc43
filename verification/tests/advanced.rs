use std::time::Duration;
use zenoh_flat::advanced::{
    recovery_config_to_base, CacheConfig, MissDetectionConfig, RecoveryConfig, RecoveryMode,
    RepliesConfig,
};
use zenoh_flat::qos::{CongestionControl, Priority};

fn to_base(mode: Option<RecoveryMode>) -> String {
    to_base_with(mode, None)
}

fn to_base_with(mode: Option<RecoveryMode>, retention_period: Option<Duration>) -> String {
    format!("{:?}", recovery_config_to_base(RecoveryConfig { mode, retention_period }))
}

#[test]
fn every_recovery_mode_reaches_base() {
    let period = Duration::from_millis(250);
    assert_eq!(
        to_base(Some(RecoveryMode::PeriodicQueries(period))),
        format!("{:?}", zenoh_ext::RecoveryConfig::<false>::default().periodic_queries(period)),
    );
    assert_eq!(
        to_base(Some(RecoveryMode::Heartbeat)),
        format!("{:?}", zenoh_ext::RecoveryConfig::<false>::default().heartbeat()),
    );
    assert_eq!(to_base(None), format!("{:?}", zenoh_ext::RecoveryConfig::<true>::default()));
}

#[test]
fn retention_period_reaches_base_in_every_mode() {
    let period = Duration::from_secs(120);
    for mode in [
        None,
        Some(RecoveryMode::Heartbeat),
        Some(RecoveryMode::PeriodicQueries(Duration::from_millis(250))),
    ] {
        let with = to_base_with(mode, Some(period));
        let without = to_base_with(mode, None);
        assert_ne!(with, without, "retention period was dropped for mode {mode:?}");
    }
}

#[test]
fn retention_period_and_mode_are_independent() {
    let period = Duration::from_secs(120);
    let query = Duration::from_millis(250);
    assert_ne!(
        to_base_with(Some(RecoveryMode::Heartbeat), Some(period)),
        to_base_with(Some(RecoveryMode::Heartbeat), None)
    );
    assert_ne!(
        to_base_with(Some(RecoveryMode::Heartbeat), Some(period)),
        to_base_with(Some(RecoveryMode::PeriodicQueries(query)), Some(period))
    );
    assert_eq!(
        to_base_with(None, Some(period)),
        format!("{:?}", zenoh_ext::RecoveryConfig::<true>::default().retention_period(period))
    );
}

#[test]
fn recovery_modes_are_distinguishable() {
    let a = to_base(Some(RecoveryMode::PeriodicQueries(Duration::from_millis(250))));
    let b = to_base(Some(RecoveryMode::Heartbeat));
    let c = to_base(None);
    assert_ne!(a, b);
    assert_ne!(a, c);
    assert_ne!(b, c);
}

#[test]
fn defaults() {
    let r = RepliesConfig::default();
    assert_eq!(r.priority, Priority::Data);
    assert_eq!(r.congestion_control, CongestionControl::Block);
    assert!(!r.is_express);
    let c = CacheConfig::default();
    assert_eq!(c.max_samples, 1);
    assert_eq!(c.replies_config, r);
    let m = MissDetectionConfig::default();
    assert_eq!(m.heartbeat, None);
    assert!(!m.sporadic);
    let rc = RecoveryConfig::default();
    assert_eq!(rc.mode, None);
    assert_eq!(rc.retention_period, None);
}
