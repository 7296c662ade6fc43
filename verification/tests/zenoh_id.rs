use zenoh_flat::zenoh_id::{zenoh_id_from_base, zenoh_id_to_string, ZenohId, ZENOH_ID_MAX_SIZE};

/// The value form agrees with zenoh: it carries zenoh's own bytes, renders
/// exactly as zenoh renders the same identifier, and converts back to it.
#[test]
fn value_form_matches_base() {
    for text in [
        "1",
        "a1",
        "1234",
        "aabbcc",
        "1122334455667788",
        "112233445566778899aabbccddeeff11",
    ] {
        let base: zenoh::session::ZenohId = text.parse().expect("valid identifier");
        let flat = zenoh_id_from_base(base);

        assert_eq!(flat.bytes, base.to_le_bytes(), "{text} bytes differ");
        assert_eq!(
            zenoh_id_to_string(&flat).unwrap(),
            base.to_string(),
            "{text} renders differently from base"
        );
        assert_eq!(zenoh::session::ZenohId::try_from(&flat.bytes[..]).unwrap(), base);
    }
}

/// A short identifier is zero-padded in the field, and that padding does not
/// leak into the rendered form.
#[test]
fn padding_is_present_but_invisible() {
    let base: zenoh::session::ZenohId = "a1".parse().unwrap();
    let flat = zenoh_id_from_base(base);

    assert_eq!(flat.bytes[0], 0xa1);
    assert!(
        flat.bytes[1..].iter().all(|&b| b == 0),
        "high-order bytes of a short identifier must be zero"
    );
    assert_eq!(zenoh_id_to_string(&flat).unwrap(), "a1");
}

/// All-zero bytes are not an identifier and are reported rather than rendered.
#[test]
fn all_zero_is_rejected() {
    let zero = ZenohId {
        bytes: [0u8; ZENOH_ID_MAX_SIZE],
    };
    assert!(zenoh_id_to_string(&zero).is_err());
}

#[test]
fn high_byte_alone_is_an_identifier() {
    let mut bytes = [0u8; ZENOH_ID_MAX_SIZE];
    bytes[15] = 0x01;
    let s = zenoh_id_to_string(&ZenohId { bytes }).unwrap();
    assert_eq!(s, "1000000000000000000000000000000");
}
