use zenoh_flat::bytes::{encoding_const_text_plain, zbytes_new_from_slice, Encoding};
use zenoh_flat::keyexpr::keyexpr_new_try_from;
use zenoh_flat::qos::{CongestionControl, Priority, Reliability};
use zenoh_flat::sample::{
    sample_from_struct, sample_get_attachment, sample_get_congestion_control,
    sample_get_encoding, sample_get_express, sample_get_key_expr, sample_get_kind,
    sample_get_payload, sample_get_priority, sample_get_reliability, sample_get_source_info,
    sample_get_timestamp, sample_get_timestamp_stack, sample_into_struct, sample_new_delete,
    sample_new_put, sample_to_struct, z_sample_delete, z_sample_put, z_sample_source_eid,
    z_sample_source_sn, z_sample_source_zid, z_sample_timestamp, Sample, SampleKind,
    SourceInfo,
};
use zenoh_flat::time::Timestamp;
use zenoh_flat::zenoh_id::{EntityGlobalId, ZenohId};

/// NTP64 with the high bit set, so a value that silently round-trips through
/// `i64` is visible.
const NTP64_MARKER: u64 = (i64::MAX as u64) + 12_345;

/// A distinctive node id, so a timestamp whose id was fabricated rather than
/// carried through is visible.
const ID_MARKER: [u8; 4] = [0xde, 0xad, 0xbe, 0xef];

fn marker_timestamp() -> Timestamp {
    Timestamp {
        ntp64: NTP64_MARKER,
        id: ID_MARKER.to_vec(),
    }
}

/// Every field of the value form equals the accessor for that same field.
fn assert_struct_mirrors_accessors(s: &Sample) {
    let st = sample_to_struct(s);
    assert_eq!(&st.key_expr, sample_get_key_expr(s));
    assert_eq!(&st.payload, sample_get_payload(s));
    assert_eq!(&st.encoding, sample_get_encoding(s));
    assert_eq!(st.kind, sample_get_kind(s));
    assert_eq!(st.timestamp, sample_get_timestamp(s));
    assert_eq!(st.express, sample_get_express(s));
    assert_eq!(st.priority, sample_get_priority(s));
    assert_eq!(st.congestion_control, sample_get_congestion_control(s));
    assert_eq!(st.attachment.as_ref(), sample_get_attachment(s));
    assert_eq!(st.reliability, sample_get_reliability(s));
    assert_eq!(st.source_info, sample_get_source_info(s));
    assert_eq!(st.timestamp_stack.as_ref(), sample_get_timestamp_stack(s));
}

/// A put sample with every settable field carrying a distinctive, non-default
/// value.
fn put_sample() -> Sample {
    let ke = keyexpr_new_try_from("test/ke".to_string()).unwrap();
    sample_new_put(
        ke,
        zbytes_new_from_slice(b"hello"),
        Some(&encoding_const_text_plain()),
        Some(marker_timestamp()),
        Some(zbytes_new_from_slice(b"attachment")),
        Some(CongestionControl::Block),
        Some(Priority::InteractiveHigh),
        Some(true),
        Some(Reliability::BestEffort),
    )
    .expect("marker timestamp is valid")
}

fn delete_sample() -> Sample {
    let ke = keyexpr_new_try_from("test/ke".to_string()).unwrap();
    sample_new_delete(
        ke,
        Some(marker_timestamp()),
        Some(zbytes_new_from_slice(b"attachment")),
        Some(CongestionControl::Block),
        Some(Priority::InteractiveHigh),
        Some(true),
        Some(Reliability::BestEffort),
    )
    .expect("marker timestamp is valid")
}

#[test]
fn put_struct_mirrors_accessors() {
    assert_struct_mirrors_accessors(&put_sample());
}

#[test]
fn delete_struct_mirrors_accessors() {
    assert_struct_mirrors_accessors(&delete_sample());
}

#[test]
fn put_sample_fields_are_non_default() {
    let st = sample_to_struct(&put_sample());
    assert_eq!(st.kind, SampleKind::Put);
    assert_eq!(&st.encoding, &encoding_const_text_plain());
    assert_eq!(st.timestamp, Some(marker_timestamp()));
    assert!(st.express);
    assert_eq!(st.priority, Priority::InteractiveHigh);
    assert_eq!(st.congestion_control, CongestionControl::Block);
    assert!(st.attachment.is_some());
    assert_eq!(st.reliability, Reliability::BestEffort);
}

#[test]
fn twin_fields_are_carried_as_handles() {
    let s = put_sample();
    let st = sample_to_struct(&s);

    let encoding: Encoding = st.encoding;
    assert_eq!(&encoding, sample_get_encoding(&s));
}

#[test]
fn delete_sample_has_delete_kind() {
    assert_eq!(sample_to_struct(&delete_sample()).kind, SampleKind::Delete);
}

#[test]
fn absent_source_info_stays_none() {
    let ke = keyexpr_new_try_from("test/source".to_string()).unwrap();
    let s = sample_new_put(
        ke,
        zbytes_new_from_slice(b"payload"),
        None,
        None,
        None,
        None,
        None,
        None,
        None,
    )
    .expect("no timestamp to validate");
    assert!(sample_get_source_info(&s).is_none());
}

#[test]
fn omitted_options_take_zenoh_defaults() {
    let ke = keyexpr_new_try_from("a/b".to_string()).unwrap();
    let s = sample_new_put(ke, zbytes_new_from_slice(b""), None, None, None, None, None, None, None)
        .unwrap();
    let base = zenoh::sample::SampleBuilder::put(zenoh::key_expr::KeyExpr::try_from("a/b").unwrap(), Vec::<u8>::new());
    let base: zenoh::sample::Sample = base.into();
    assert_eq!(sample_get_express(&s), base.express());
    assert_eq!(sample_get_priority(&s), Priority::Data);
    assert_eq!(base.priority(), zenoh::qos::Priority::Data);
    assert_eq!(sample_get_congestion_control(&s), CongestionControl::Drop);
    assert_eq!(base.congestion_control(), zenoh::qos::CongestionControl::Drop);
    assert_eq!(sample_get_reliability(&s), Reliability::Reliable);
    assert_eq!(base.reliability(), zenoh::qos::Reliability::Reliable);
    assert_eq!(zenoh_flat::bytes::encoding_get_id(sample_get_encoding(&s)), base.encoding().id() as i32);
    assert!(sample_get_timestamp(&s).is_none());
    assert!(sample_get_attachment(&s).is_none());
}

#[test]
fn invalid_timestamp_id_is_refused() {
    let ke = keyexpr_new_try_from("a".to_string()).unwrap();
    let zero = Timestamp { ntp64: 1, id: vec![0, 0] };
    assert!(sample_new_put(ke.clone(), zbytes_new_from_slice(b"x"), None, Some(zero), None, None, None, None, None).is_err());
    let long = Timestamp { ntp64: 1, id: vec![1; 17] };
    assert!(sample_new_delete(ke.clone(), Some(long), None, None, None, None, None).is_err());
    let sixteen = Timestamp { ntp64: 1, id: vec![1; 16] };
    assert!(sample_new_delete(ke, Some(sixteen), None, None, None, None, None).is_ok());
}

#[test]
fn timestamp_id_keeps_its_significant_bytes() {
    let ke = keyexpr_new_try_from("a".to_string()).unwrap();
    let padded = Timestamp { ntp64: 7, id: vec![0x01, 0x02, 0x00, 0x00] };
    let s = sample_new_put(ke, zbytes_new_from_slice(b"x"), None, Some(padded), None, None, None, None, None)
        .unwrap();
    assert_eq!(sample_get_timestamp(&s), Some(Timestamp { ntp64: 7, id: vec![0x01, 0x02] }));
}

#[test]
fn delete_sample_has_empty_payload_and_default_encoding() {
    let s = delete_sample();
    assert!(zenoh_flat::bytes::zbytes_is_empty(sample_get_payload(&s)));
    assert_eq!(zenoh_flat::bytes::encoding_get_id(sample_get_encoding(&s)), 0);
}

#[test]
fn struct_round_trips() {
    let s = put_sample();
    let back = sample_from_struct(sample_into_struct(s.clone()));
    assert_eq!(back, s);
}

#[test]
fn thin_surface_source_defaults_to_zero() {
    let ke = keyexpr_new_try_from("a".to_string()).unwrap();
    let s = z_sample_put(ke, zbytes_new_from_slice(b"x"), None, Some(-1), None, None, None, None, None);
    assert_eq!(z_sample_source_eid(&s), 0);
    assert_eq!(z_sample_source_sn(&s), 0);
    assert!(z_sample_source_zid(&s).is_none());
    let ts = z_sample_timestamp(&s).unwrap();
    assert_eq!(ts.ntp64, u64::MAX);
    assert!(!ts.id.is_empty() && ts.id.len() <= 16);
}

#[test]
fn thin_surface_reads_source_info() {
    let ke = keyexpr_new_try_from("a".to_string()).unwrap();
    let mut st = sample_into_struct(z_sample_delete(ke, None, None, None, None, None, None));
    let zid = ZenohId { bytes: [7; 16] };
    st.source_info = Some(SourceInfo { source: EntityGlobalId { zid, eid: u32::MAX }, sn: 42 });
    let s = sample_from_struct(st);
    assert_eq!(z_sample_source_eid(&s), -1);
    assert_eq!(z_sample_source_sn(&s), 42);
    assert_eq!(z_sample_source_zid(&s), Some(zid));
    assert!(z_sample_timestamp(&s).is_none());
}
