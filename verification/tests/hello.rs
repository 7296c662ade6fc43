use zenoh_flat::config::WhatAmI;
use zenoh_flat::scouting::{
    hello_from_struct, hello_get_locators, hello_get_whatami, hello_get_zid, hello_to_struct,
    scout_whatami_matcher, HelloStruct,
};
use zenoh_flat::zenoh_id::ZenohId;

fn hello_from_base(h: &zenoh::scouting::Hello) -> zenoh_flat::scouting::Hello {
    let whatami = match h.whatami() {
        zenoh::config::WhatAmI::Router => WhatAmI::Router,
        zenoh::config::WhatAmI::Peer => WhatAmI::Peer,
        zenoh::config::WhatAmI::Client => WhatAmI::Client,
    };
    hello_from_struct(HelloStruct {
        whatami,
        zid: ZenohId { bytes: h.zid().to_le_bytes() },
        locators: h.locators().iter().map(|l| l.to_string()).collect(),
    })
}

/// Every field of the value form equals the accessor for that same field.
#[test]
fn struct_mirrors_accessors() {
    let h = hello_from_base(&zenoh::scouting::Hello::empty());
    let hs = hello_to_struct(&h);
    assert_eq!(hs.whatami, hello_get_whatami(&h));
    assert_eq!(hs.zid, hello_get_zid(&h));
    assert_eq!(hs.locators, hello_get_locators(&h));
}

#[test]
fn struct_mirrors_non_default_hello() {
    let st = HelloStruct {
        whatami: WhatAmI::Router,
        zid: ZenohId { bytes: [3; 16] },
        locators: vec!["tcp/127.0.0.1:7447".to_string(), "udp/[::1]:7447".to_string()],
    };
    let h = hello_from_struct(st.clone());
    assert_eq!(hello_to_struct(&h), st);
    assert_eq!(hello_get_locators(&h).len(), 2);
}

#[test]
fn whatami_bitfield_accepts_role_combinations_only() {
    for bits in 0..=7 {
        assert!(scout_whatami_matcher(bits).is_ok(), "{bits}");
    }
    assert!(scout_whatami_matcher(8).is_err());
    assert!(scout_whatami_matcher(-1).is_err());
    assert!(scout_whatami_matcher(256).is_err());
    assert!(scout_whatami_matcher(1 | 2 | 4).is_ok());
}

#[test]
fn refused_bitfields_name_their_value() {
    let e = scout_whatami_matcher(-1).unwrap_err();
    assert_eq!(zenoh_flat::error::error_get_message(&e), "invalid whatami bitfield: -1");
    let e = scout_whatami_matcher(256).unwrap_err();
    assert_eq!(zenoh_flat::error::error_get_message(&e), "invalid whatami bitfield: 256");
    let e = scout_whatami_matcher(8).unwrap_err();
    assert_eq!(zenoh_flat::error::error_get_message(&e), "invalid whatami bitfield: 0b1000");
    let e = scout_whatami_matcher(255).unwrap_err();
    assert_eq!(zenoh_flat::error::error_get_message(&e), "invalid whatami bitfield: 0b11111111");
}
