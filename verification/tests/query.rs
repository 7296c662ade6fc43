use zenoh_flat::bytes::{encoding_const_text_plain, zbytes_new_from_slice};
use zenoh_flat::keyexpr::keyexpr_new_try_from;
use zenoh_flat::qos::{CongestionControl, Priority};
use zenoh_flat::query::{
    Query,
    Reply,
    ReplyErrorStruct,
    ReplyKeyExpr,
    ReplyResult,
    ReplyStruct,
    query_get_accepts_replies,
    query_get_attachment,
    query_get_congestion_control,
    query_get_encoding,
    query_get_express,
    query_get_key_expr,
    query_get_parameters,
    query_get_payload,
    query_get_priority,
    query_get_source_info,
    query_get_timestamp_stack,
    reply_error_from_struct,
    reply_error_get_encoding,
    reply_error_get_payload,
    reply_error_to_struct,
    reply_from_struct,
    reply_get_err,
    reply_get_replier_id,
    reply_get_sample,
    reply_is_ok,
    reply_to_struct,
    reply_into_struct,
    z_query_keyexpr,
    z_query_parameters,
    z_reply_err,
    z_reply_error_encoding,
    z_reply_error_payload,
    z_reply_is_ok,
    z_reply_replier_eid,
    z_reply_replier_zid,
    z_reply_sample,
};
use zenoh_flat::sample::{sample_new_put, sample_to_struct};
use zenoh_flat::zenoh_id::{EntityGlobalId, ZenohId};

fn ok_reply() -> Reply {
    let ke = keyexpr_new_try_from("q/a".to_string()).unwrap();
    let s = sample_new_put(ke, zbytes_new_from_slice(b"v"), None, None, None, None, None, None, None).unwrap();
    reply_from_struct(ReplyStruct {
        result: ReplyResult::Sample(s),
        replier_id: Some(EntityGlobalId { zid: ZenohId { bytes: [5; 16] }, eid: 3 }),
    })
}

fn err_reply() -> Reply {
    let e = reply_error_from_struct(ReplyErrorStruct {
        payload: zbytes_new_from_slice(b"boom"),
        encoding: encoding_const_text_plain(),
    });
    reply_from_struct(ReplyStruct { result: ReplyResult::Error(e), replier_id: None })
}

#[test]
fn reply_struct_mismatches() {
    for r in [ok_reply(), err_reply()] {
        let st = reply_to_struct(&r);
        match &st.result {
            ReplyResult::Sample(s) => {
                assert!(reply_is_ok(&r));
                assert_eq!(reply_get_sample(&r), Some(s));
                assert!(reply_get_err(&r).is_none());
            }
            ReplyResult::Error(e) => {
                assert!(!reply_is_ok(&r));
                assert!(reply_get_sample(&r).is_none());
                assert_eq!(reply_get_err(&r), Some(e));
                assert_eq!(reply_error_get_payload(e), &zbytes_new_from_slice(b"boom"));
                assert_eq!(reply_error_get_encoding(e), &encoding_const_text_plain());
                assert_eq!(reply_error_to_struct(e).payload, zbytes_new_from_slice(b"boom"));
            }
        }
        assert_eq!(st.replier_id, reply_get_replier_id(&r));
    }
}

#[test]
fn thin_reply_surface() {
    let ok = ok_reply();
    assert!(z_reply_is_ok(&ok));
    assert_eq!(z_reply_replier_eid(&ok), 3);
    assert_eq!(z_reply_replier_zid(&ok), Some(ZenohId { bytes: [5; 16] }));
    let s = z_reply_sample(&ok).unwrap();
    assert_eq!(sample_to_struct(s).payload, zbytes_new_from_slice(b"v"));
    let err = err_reply();
    assert_eq!(z_reply_replier_eid(&err), 0);
    assert!(z_reply_replier_zid(&err).is_none());
    let e = z_reply_err(&err).unwrap();
    assert_eq!(z_reply_error_payload(e), &zbytes_new_from_slice(b"boom"));
    assert_eq!(z_reply_error_encoding(e), &encoding_const_text_plain());
}

#[test]
fn query_accessors() {
    let q = Query {
        key_expr: keyexpr_new_try_from("q/**".to_string()).unwrap(),
        parameters: "a=1".to_string(),
        payload: Some(zbytes_new_from_slice(b"p")),
        encoding: None,
        attachment: None,
        accepts_replies: ReplyKeyExpr::MatchingQuery,
        congestion_control: CongestionControl::Block,
        priority: Priority::RealTime,
        express: true,
        source_info: None,
        timestamp_stack: None,
    };
    assert_eq!(query_get_parameters(&q), "a=1");
    assert_eq!(z_query_parameters(&q), "a=1");
    assert_eq!(query_get_payload(&q), Some(&zbytes_new_from_slice(b"p")));
    assert!(query_get_encoding(&q).is_none());
    assert!(query_get_attachment(&q).is_none());
    assert_eq!(query_get_accepts_replies(&q), ReplyKeyExpr::MatchingQuery);
    assert_eq!(query_get_congestion_control(&q), CongestionControl::Block);
    assert_eq!(query_get_priority(&q), Priority::RealTime);
    assert!(query_get_express(&q));
    assert!(query_get_source_info(&q).is_none());
    assert!(query_get_timestamp_stack(&q).is_none());
    assert_eq!(query_get_key_expr(&q), z_query_keyexpr(&q));
}

#[test]
fn consuming_value_form_matches_borrowing_one() {
    for r in [ok_reply(), err_reply()] {
        let borrowed = reply_to_struct(&r);
        let moved = reply_into_struct(r.clone());
        assert_eq!(borrowed.replier_id, moved.replier_id);
        match (&borrowed.result, &moved.result) {
            (ReplyResult::Sample(a), ReplyResult::Sample(b)) => assert_eq!(a, b),
            (ReplyResult::Error(a), ReplyResult::Error(b)) => assert_eq!(a, b),
            _ => panic!("value forms disagree on the alternative"),
        }
    }
}

#[test]
fn query_encoding_needs_a_payload_and_selector_defaults() {
    let enc = encoding_const_text_plain();
    assert_eq!(zenoh_flat::query::query_payload_encoding(&None, Some(&enc)), None);
    let p = Some(zbytes_new_from_slice(b"x"));
    assert_eq!(zenoh_flat::query::query_payload_encoding(&p, Some(&enc)), Some(&enc));
    let s = zenoh_flat::query::selector_new(keyexpr_new_try_from("a/b".to_string()).unwrap(), None);
    assert_eq!(s.parameters, "");
    let s = zenoh_flat::query::selector_new(keyexpr_new_try_from("a/b".to_string()).unwrap(), Some("x=1".to_string()));
    assert_eq!(s.parameters, "x=1");
}
