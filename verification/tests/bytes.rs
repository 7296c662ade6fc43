use zenoh_flat::bytes::{
    Encoding,
    encoding_const_application_cbor,
    encoding_const_application_cdr,
    encoding_const_application_coap_payload,
    encoding_const_application_java_serialized_object,
    encoding_const_application_json,
    encoding_const_application_json_patch_json,
    encoding_const_application_json_seq,
    encoding_const_application_jsonpath,
    encoding_const_application_jwt,
    encoding_const_application_mp4,
    encoding_const_application_octet_stream,
    encoding_const_application_openmetrics_text,
    encoding_const_application_protobuf,
    encoding_const_application_python_serialized_object,
    encoding_const_application_soap_xml,
    encoding_const_application_sql,
    encoding_const_application_x_www_form_urlencoded,
    encoding_const_application_xml,
    encoding_const_application_yaml,
    encoding_const_application_yang,
    encoding_const_audio_aac,
    encoding_const_audio_flac,
    encoding_const_audio_mp4,
    encoding_const_audio_ogg,
    encoding_const_audio_vorbis,
    encoding_const_image_bmp,
    encoding_const_image_gif,
    encoding_const_image_jpeg,
    encoding_const_image_png,
    encoding_const_image_webp,
    encoding_const_text_css,
    encoding_const_text_csv,
    encoding_const_text_html,
    encoding_const_text_javascript,
    encoding_const_text_json,
    encoding_const_text_json5,
    encoding_const_text_markdown,
    encoding_const_text_plain,
    encoding_const_text_xml,
    encoding_const_text_yaml,
    encoding_const_video_h261,
    encoding_const_video_h263,
    encoding_const_video_h264,
    encoding_const_video_h265,
    encoding_const_video_h266,
    encoding_const_video_mp4,
    encoding_const_video_ogg,
    encoding_const_video_raw,
    encoding_const_video_vp8,
    encoding_const_video_vp9,
    encoding_const_zenoh_bytes,
    encoding_const_zenoh_serialized,
    encoding_const_zenoh_string,
    encoding_get_id,
    encoding_get_schema,
    encoding_get_schema_bytes,
    encoding_new,
    encoding_new_from_id,
    encoding_new_from_string,
    encoding_new_with_schema,
    encoding_to_string,
    z_encoding_from_id,
    z_encoding_from_string,
    z_encoding_id,
    z_encoding_to_string,
    z_encoding_video_vp9,
    z_encoding_zenoh_bytes,
    z_zbytes_clone,
    z_zbytes_from_slice,
    z_zbytes_from_vec,
    z_zbytes_to_bytes,
    zbytes_is_empty,
    zbytes_len,
    zbytes_new_clone,
    zbytes_new_from_slice,
    zbytes_new_from_vec,
    zbytes_to_bytes,
    zbytes_try_to_string,
};

#[test]
fn payload_round_trips() {
    let z = zbytes_new_from_slice(b"hello");
    assert_eq!(zbytes_len(&z), 5);
    assert!(!zbytes_is_empty(&z));
    assert_eq!(zbytes_to_bytes(&z), b"hello");
    assert_eq!(zbytes_try_to_string(&z).unwrap(), "hello");
    assert_eq!(zbytes_new_clone(&z), z);
    assert_eq!(z_zbytes_to_bytes(&zbytes_new_from_vec(vec![1, 2, 3])), vec![1, 2, 3]);
    assert!(zbytes_is_empty(&z_zbytes_from_slice(b"")));
    assert_eq!(z_zbytes_clone(&z_zbytes_from_vec(vec![9])), zbytes_new_from_slice(&[9]));
}

#[test]
fn non_utf8_payload_is_refused() {
    assert!(zbytes_try_to_string(&zbytes_new_from_slice(&[0xff, 0xfe])).is_err());
    assert_eq!(zbytes_try_to_string(&zbytes_new_from_slice("é".as_bytes())).unwrap(), "é");
}

#[test]
fn encoding_ids_and_schema() {
    let e = encoding_new_from_id(70000, Some("utf-8".to_string()));
    assert_eq!(encoding_get_id(&e), 70000 - 65536);
    assert_eq!(encoding_get_schema(&e), Some("utf-8".to_string()));
    let e = encoding_new_from_id(-1, None);
    assert_eq!(encoding_get_id(&e), 65535);
    assert_eq!(encoding_get_schema(&e), None);
    assert_eq!(encoding_get_schema(&encoding_new(3, Some(vec![0xff]))), None);
    assert_eq!(z_encoding_id(&z_encoding_from_id(5, None)), 5);
}

#[test]
fn encoding_text_forms_are_zenohs() {
    let plain = encoding_const_text_plain();
    assert_eq!(encoding_to_string(&plain), zenoh::bytes::Encoding::TEXT_PLAIN.to_string());
    let with = encoding_new_with_schema(&plain, "utf-8".to_string());
    assert_eq!(encoding_to_string(&with), "text/plain;utf-8");
    assert_eq!(encoding_get_schema(&with), Some("utf-8".to_string()));
    let parsed = encoding_new_from_string("application/json".to_string());
    assert_eq!(parsed, encoding_const_application_json());
    let custom = encoding_new_from_string("my/encoding".to_string());
    assert_eq!(encoding_get_id(&custom), 0xFFFF);
    assert_eq!(encoding_to_string(&custom), "my/encoding");
    assert_eq!(encoding_new_from_string(String::new()), encoding_const_zenoh_bytes());
    assert_eq!(z_encoding_to_string(&z_encoding_from_string("text/csv".to_string())), "text/csv");
}

#[test]
fn custom_encoding_keeps_its_name_beside_a_schema() {
    let custom = encoding_new_from_string("my/encoding".to_string());
    let with = encoding_new_with_schema(&custom, "v1".to_string());
    assert_eq!(encoding_get_id(&with), 0xFFFF);
    assert_eq!(encoding_to_string(&with), zenoh::bytes::Encoding::from("my/encoding").with_schema("v1").to_string());
}

#[test]
fn presets_match_zenoh() {
    let pairs: Vec<(Encoding, zenoh::bytes::Encoding)> = vec![
        (encoding_const_zenoh_bytes(), zenoh::bytes::Encoding::ZENOH_BYTES),
        (encoding_const_zenoh_string(), zenoh::bytes::Encoding::ZENOH_STRING),
        (encoding_const_zenoh_serialized(), zenoh::bytes::Encoding::ZENOH_SERIALIZED),
        (encoding_const_application_octet_stream(), zenoh::bytes::Encoding::APPLICATION_OCTET_STREAM),
        (encoding_const_text_plain(), zenoh::bytes::Encoding::TEXT_PLAIN),
        (encoding_const_application_json(), zenoh::bytes::Encoding::APPLICATION_JSON),
        (encoding_const_text_json(), zenoh::bytes::Encoding::TEXT_JSON),
        (encoding_const_application_cdr(), zenoh::bytes::Encoding::APPLICATION_CDR),
        (encoding_const_application_cbor(), zenoh::bytes::Encoding::APPLICATION_CBOR),
        (encoding_const_application_yaml(), zenoh::bytes::Encoding::APPLICATION_YAML),
        (encoding_const_text_yaml(), zenoh::bytes::Encoding::TEXT_YAML),
        (encoding_const_text_json5(), zenoh::bytes::Encoding::TEXT_JSON5),
        (encoding_const_application_python_serialized_object(), zenoh::bytes::Encoding::APPLICATION_PYTHON_SERIALIZED_OBJECT),
        (encoding_const_application_protobuf(), zenoh::bytes::Encoding::APPLICATION_PROTOBUF),
        (encoding_const_application_java_serialized_object(), zenoh::bytes::Encoding::APPLICATION_JAVA_SERIALIZED_OBJECT),
        (encoding_const_application_openmetrics_text(), zenoh::bytes::Encoding::APPLICATION_OPENMETRICS_TEXT),
        (encoding_const_image_png(), zenoh::bytes::Encoding::IMAGE_PNG),
        (encoding_const_image_jpeg(), zenoh::bytes::Encoding::IMAGE_JPEG),
        (encoding_const_image_gif(), zenoh::bytes::Encoding::IMAGE_GIF),
        (encoding_const_image_bmp(), zenoh::bytes::Encoding::IMAGE_BMP),
        (encoding_const_image_webp(), zenoh::bytes::Encoding::IMAGE_WEBP),
        (encoding_const_application_xml(), zenoh::bytes::Encoding::APPLICATION_XML),
        (encoding_const_application_x_www_form_urlencoded(), zenoh::bytes::Encoding::APPLICATION_X_WWW_FORM_URLENCODED),
        (encoding_const_text_html(), zenoh::bytes::Encoding::TEXT_HTML),
        (encoding_const_text_xml(), zenoh::bytes::Encoding::TEXT_XML),
        (encoding_const_text_css(), zenoh::bytes::Encoding::TEXT_CSS),
        (encoding_const_text_javascript(), zenoh::bytes::Encoding::TEXT_JAVASCRIPT),
        (encoding_const_text_markdown(), zenoh::bytes::Encoding::TEXT_MARKDOWN),
        (encoding_const_text_csv(), zenoh::bytes::Encoding::TEXT_CSV),
        (encoding_const_application_sql(), zenoh::bytes::Encoding::APPLICATION_SQL),
        (encoding_const_application_coap_payload(), zenoh::bytes::Encoding::APPLICATION_COAP_PAYLOAD),
        (encoding_const_application_json_patch_json(), zenoh::bytes::Encoding::APPLICATION_JSON_PATCH_JSON),
        (encoding_const_application_json_seq(), zenoh::bytes::Encoding::APPLICATION_JSON_SEQ),
        (encoding_const_application_jsonpath(), zenoh::bytes::Encoding::APPLICATION_JSONPATH),
        (encoding_const_application_jwt(), zenoh::bytes::Encoding::APPLICATION_JWT),
        (encoding_const_application_mp4(), zenoh::bytes::Encoding::APPLICATION_MP4),
        (encoding_const_application_soap_xml(), zenoh::bytes::Encoding::APPLICATION_SOAP_XML),
        (encoding_const_application_yang(), zenoh::bytes::Encoding::APPLICATION_YANG),
        (encoding_const_audio_aac(), zenoh::bytes::Encoding::AUDIO_AAC),
        (encoding_const_audio_flac(), zenoh::bytes::Encoding::AUDIO_FLAC),
        (encoding_const_audio_mp4(), zenoh::bytes::Encoding::AUDIO_MP4),
        (encoding_const_audio_ogg(), zenoh::bytes::Encoding::AUDIO_OGG),
        (encoding_const_audio_vorbis(), zenoh::bytes::Encoding::AUDIO_VORBIS),
        (encoding_const_video_h261(), zenoh::bytes::Encoding::VIDEO_H261),
        (encoding_const_video_h263(), zenoh::bytes::Encoding::VIDEO_H263),
        (encoding_const_video_h264(), zenoh::bytes::Encoding::VIDEO_H264),
        (encoding_const_video_h265(), zenoh::bytes::Encoding::VIDEO_H265),
        (encoding_const_video_h266(), zenoh::bytes::Encoding::VIDEO_H266),
        (encoding_const_video_mp4(), zenoh::bytes::Encoding::VIDEO_MP4),
        (encoding_const_video_ogg(), zenoh::bytes::Encoding::VIDEO_OGG),
        (encoding_const_video_raw(), zenoh::bytes::Encoding::VIDEO_RAW),
        (encoding_const_video_vp8(), zenoh::bytes::Encoding::VIDEO_VP8),
        (encoding_const_video_vp9(), zenoh::bytes::Encoding::VIDEO_VP9),
    ];
    for (flat, base) in pairs {
        assert_eq!(encoding_get_id(&flat), base.id() as i32);
        assert_eq!(encoding_get_schema(&flat), None);
        assert_eq!(encoding_to_string(&flat), base.to_string());
    }
    assert_eq!(z_encoding_video_vp9(), encoding_const_video_vp9());
    assert_eq!(z_encoding_zenoh_bytes(), encoding_const_zenoh_bytes());
}

#[test]
fn text_payload_round_trips() {
    let text = "h\u{e9}llo \u{2713} \u{1d11e}";
    let z = zbytes_new_from_slice(text.as_bytes());
    let back = zbytes_try_to_string(&z).unwrap();
    assert_eq!(back, text);
    assert_eq!(zbytes_to_bytes(&zbytes_new_from_slice(back.as_bytes())), text.as_bytes());
}

#[test]
fn schema_reads_back_except_beside_a_custom_name() {
    let plain = encoding_new_with_schema(&encoding_const_text_plain(), "utf-8".to_string());
    assert_eq!(encoding_get_schema(&plain), Some("utf-8".to_string()));
    let bare_custom = encoding_new_with_schema(&encoding_new(0xFFFF, None), "x".to_string());
    assert_eq!(encoding_get_schema(&bare_custom), Some("x".to_string()));
    let named = encoding_new_from_string("my/encoding".to_string());
    let with = encoding_new_with_schema(&named, "v1".to_string());
    assert_eq!(encoding_get_schema(&with), Some("my/encoding;v1".to_string()));
    let empty = encoding_new_with_schema(&named, String::new());
    assert_eq!(encoding_get_schema(&empty), Some("my/encoding".to_string()));
}

#[test]
fn raw_schema_bytes_are_kept() {
    let e = encoding_new(7, Some(vec![0xff, 0x00]));
    assert_eq!(encoding_get_schema_bytes(&e), Some(vec![0xff, 0x00]));
    assert_eq!(encoding_get_schema(&e), None);
    assert_eq!(encoding_get_schema_bytes(&encoding_const_text_plain()), None);
}
