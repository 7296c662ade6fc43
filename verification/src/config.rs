//! Node roles and session configuration.
use vstd::prelude::*;
use crate::error::Error;

verus! {

/// The role of a node in a Zenoh network.
///
/// Each role stands for one bit of the bitfield that scouting accepts:
/// router `1`, peer `2`, client `4` (see [`whatami_bit`]).
#[derive(Debug, Clone, Copy, PartialEq, Eq, Structural)]
pub enum WhatAmI {
    /// A node that routes traffic between other nodes.
    Router,
    /// A node that communicates directly with peers and routers.
    Peer,
    /// A node that connects through a router or peer.
    Client,
}

/// The bit a role stands for in a scouting bitfield.
pub open spec fn whatami_bit(w: WhatAmI) -> u8 {
    match w {
        WhatAmI::Router => 1,
        WhatAmI::Peer => 2,
        WhatAmI::Client => 4,
    }
}

/// The bit a role stands for in a scouting bitfield: router `1`, peer `2`,
/// client `4`.
pub fn whatami_bits(w: WhatAmI) -> (r: u8)
    ensures
        r == whatami_bit(w),
        w == WhatAmI::Router ==> r == 1,
        w == WhatAmI::Peer ==> r == 2,
        w == WhatAmI::Client ==> r == 4,
{
    match w {
        WhatAmI::Router => 1,
        WhatAmI::Peer => 2,
        WhatAmI::Client => 4,
    }
}

/// Each role stands for its own single bit of the scouting bitfield:
/// router `1`, peer `2`, client `4`. So the bits are distinct powers of two,
/// no two roles share a bit, and the three together make `7`.
pub proof fn law_role_bits_are_distinct_single_bits(a: WhatAmI, b: WhatAmI)
    ensures
        whatami_bit(WhatAmI::Router) == 1,
        whatami_bit(WhatAmI::Peer) == 2,
        whatami_bit(WhatAmI::Client) == 4,
        a != b ==> whatami_bit(a) & whatami_bit(b) == 0,
        whatami_bit(a) == 1 || whatami_bit(a) == 2 || whatami_bit(a) == 4,
        whatami_bit(WhatAmI::Router) | whatami_bit(WhatAmI::Peer) | whatami_bit(WhatAmI::Client) == 7,
{
    assert(1u8 & 2u8 == 0) by (bit_vector);
    assert(1u8 & 4u8 == 0) by (bit_vector);
    assert(2u8 & 4u8 == 0) by (bit_vector);
    assert(2u8 & 1u8 == 0) by (bit_vector);
    assert(4u8 & 1u8 == 0) by (bit_vector);
    assert(4u8 & 2u8 == 0) by (bit_vector);
    assert(1u8 | 2u8 | 4u8 == 7) by (bit_vector);
}

#[verifier::external_type_specification]
#[verifier::external_body]
pub struct ExZenohConfig(zenoh::Config);

/// The configuration handle of the thin surface: zenoh's own configuration
/// object, which the other configuration functions take as `zenoh::Config`.
pub type ZConfig = zenoh::Config;

/// What `json5::from_str::<zenoh::Config>` gives for the text `s`: the
/// configuration it deserializes, or the text of its error.
pub uninterp spec fn config_json5_outcome(s: Seq<char>) -> Result<zenoh::Config, Seq<char>>;

/// What `serde_yaml::from_str::<zenoh::Config>` gives for the text `s`: the
/// configuration it deserializes, or the text of its error.
pub uninterp spec fn config_yaml_outcome(s: Seq<char>) -> Result<zenoh::Config, Seq<char>>;

/// What zenoh's `Config::get_json` gives for configuration `c` and `key`:
/// the JSON text of the value at `key`, or the text of its error.
pub uninterp spec fn config_get_json_outcome(c: zenoh::Config, key: Seq<char>) -> Result<Seq<char>, Seq<char>>;

/// What zenoh's `Config::insert_json5` does to configuration `c` with `key`
/// and `value`: whether it succeeded (or the text of its error), and the
/// configuration it leaves.
pub uninterp spec fn config_insert_json5_outcome(
    c: zenoh::Config,
    key: Seq<char>,
    value: Seq<char>,
) -> (Result<(), Seq<char>>, zenoh::Config);

/// Whether zenoh's configuration deserializes from the JSON5 text `s`.
pub open spec fn config_json5_accepts(s: Seq<char>) -> bool {
    config_json5_outcome(s) is Ok
}

/// Whether zenoh's configuration deserializes from the YAML text `s`.
pub open spec fn config_yaml_accepts(s: Seq<char>) -> bool {
    config_yaml_outcome(s) is Ok
}

/// A parse outcome with its error text taken as characters.
pub open spec fn config_outcome_view(r: Result<zenoh::Config, String>) -> Result<zenoh::Config, Seq<char>> {
    match r {
        Ok(c) => Ok(c),
        Err(t) => Err(t@),
    }
}

/// A text outcome with both sides taken as characters.
pub open spec fn text_outcome_view(r: Result<String, String>) -> Result<Seq<char>, Seq<char>> {
    match r {
        Ok(t) => Ok(t@),
        Err(t) => Err(t@),
    }
}

/// A unit outcome with its error text taken as characters.
pub open spec fn unit_outcome_view(r: Result<(), String>) -> Result<(), Seq<char>> {
    match r {
        Ok(_) => Ok(()),
        Err(t) => Err(t@),
    }
}

/// The library's result for a parse outcome: the configuration, or an error
/// whose message is `prefix` followed by the parser's error text.
pub open spec fn parsed_config_result(
    r: Result<zenoh::Config, Error>,
    outcome: Result<zenoh::Config, Seq<char>>,
    prefix: Seq<char>,
) -> bool {
    match r {
        Ok(c) => outcome == Ok::<zenoh::Config, Seq<char>>(c),
        Err(e) => outcome matches Err(t) && e.message@ == prefix + t,
    }
}

/// Whether configuration `c` chooses no node mode: zenoh's `get_json`
/// renders its `mode` as `null`.
pub open spec fn config_mode_unset(c: zenoh::Config) -> bool {
    config_get_json_outcome(c, "mode"@) == Ok::<Seq<char>, Seq<char>>("null"@)
}

/// zenoh's `Config::default`: derived on zenoh's `Config` and on the
/// configuration inside it, so every field takes its type's default; the
/// node's mode, an `Option`, is unset, and `get_json` renders it `null`.
#[verifier::external_body]
fn base_config_default() -> (r: zenoh::Config)
    ensures
        config_mode_unset(r),
{
    zenoh::Config::default()
}

/// zenoh's `Config::clone`. Its `Clone` is derived, as are those of every
/// type inside it, so the copy is the same configuration.
#[verifier::external_body]
fn base_config_clone(c: &zenoh::Config) -> (r: zenoh::Config)
    ensures
        r == *c,
{
    c.clone()
}

/// `json5::from_str::<zenoh::Config>`, its error rendered as text.
#[verifier::external_body]
fn base_config_from_json5(s: &str) -> (r: Result<zenoh::Config, String>)
    ensures
        config_outcome_view(r) == config_json5_outcome(s@),
{
    json5::from_str::<zenoh::Config>(s).map_err(|e| e.to_string())
}

/// `serde_yaml::from_str::<zenoh::Config>`, its error rendered as text.
#[verifier::external_body]
fn base_config_from_yaml(s: &str) -> (r: Result<zenoh::Config, String>)
    ensures
        config_outcome_view(r) == config_yaml_outcome(s@),
{
    serde_yaml::from_str::<zenoh::Config>(s).map_err(|e| e.to_string())
}

/// zenoh's `Config::get_json`, its error rendered as text.
#[verifier::external_body]
fn base_config_get_json(c: &zenoh::Config, key: &str) -> (r: Result<String, String>)
    ensures
        text_outcome_view(r) == config_get_json_outcome(*c, key@),
{
    c.get_json(key).map_err(|e| e.to_string())
}

/// zenoh's `Config::insert_json5`, its error rendered as text.
#[verifier::external_body]
fn base_config_insert_json5(c: &mut zenoh::Config, key: &str, value: &str) -> (r: Result<(), String>)
    ensures
        unit_outcome_view(r) == config_insert_json5_outcome(*old(c), key@, value@).0,
        *final(c) == config_insert_json5_outcome(*old(c), key@, value@).1,
{
    c.insert_json5(key, value).map_err(|e| e.to_string())
}

/// An error whose message is `prefix` followed by `text`.
fn prefixed_error(prefix: &str, text: String) -> (e: Error)
    ensures
        e.message@ == prefix@ + text@,
{
    let mut message = String::from_str(prefix);
    message.append(text.as_str());
    Error { message }
}

/// Create a configuration with default settings: zenoh's own defaults, with
/// no node mode chosen yet (zenoh falls back to its default mode when a
/// session opens).
pub fn config_new_default() -> (r: zenoh::Config)
    ensures
        config_get_json_outcome(r, "mode"@) == Ok::<Seq<char>, Seq<char>>("null"@),
{
    base_config_default()
}

/// Create an independent copy of a configuration.
pub fn config_new_clone(c: &zenoh::Config) -> (r: zenoh::Config)
    ensures
        r == *c,
{
    base_config_clone(c)
}

/// Parse a configuration from JSON text (JSON is read as JSON5).
pub fn config_new_from_json(s: &str) -> (r: Result<zenoh::Config, Error>)
    ensures
        r is Ok <==> config_json5_accepts(s@),
        parsed_config_result(r, config_json5_outcome(s@), "JSON error: "@),
{
    config_new_from_json5(s)
}

/// Parse a configuration from a JSON5-formatted string. A failure's message
/// is `JSON error: ` followed by the parser's error.
pub fn config_new_from_json5(s: &str) -> (r: Result<zenoh::Config, Error>)
    ensures
        r is Ok <==> config_json5_accepts(s@),
        parsed_config_result(r, config_json5_outcome(s@), "JSON error: "@),
{
    match base_config_from_json5(s) {
        Ok(c) => Ok(c),
        Err(t) => Err(prefixed_error("JSON error: ", t)),
    }
}

/// Parse a configuration from a YAML-formatted string. A failure's message
/// is `YAML error: ` followed by the parser's error.
pub fn config_new_from_yaml(s: &str) -> (r: Result<zenoh::Config, Error>)
    ensures
        r is Ok <==> config_yaml_accepts(s@),
        parsed_config_result(r, config_yaml_outcome(s@), "YAML error: "@),
{
    match base_config_from_yaml(s) {
        Ok(c) => Ok(c),
        Err(t) => Err(prefixed_error("YAML error: ", t)),
    }
}

/// Return the JSON value associated with `key` in the configuration.
pub fn config_get_json(c: &zenoh::Config, key: &str) -> (r: Result<String, Error>)
    ensures
        r is Ok <==> config_get_json_outcome(*c, key@) is Ok,
        r matches Ok(j) ==> config_get_json_outcome(*c, key@) == Ok::<Seq<char>, Seq<char>>(j@),
        r matches Err(e) ==> config_get_json_outcome(*c, key@) == Err::<Seq<char>, Seq<char>>(e.message@),
{
    match base_config_get_json(c, key) {
        Ok(j) => Ok(j),
        Err(message) => Err(Error { message }),
    }
}

/// Insert a JSON5-formatted value at `key` in the configuration.
pub fn config_insert_json5(c: &mut zenoh::Config, key: &str, value: &str) -> (r: Result<(), Error>)
    ensures
        r is Ok <==> config_insert_json5_outcome(*old(c), key@, value@).0 is Ok,
        r matches Err(e) ==> config_insert_json5_outcome(*old(c), key@, value@).0
            == Err::<(), Seq<char>>(e.message@),
        *final(c) == config_insert_json5_outcome(*old(c), key@, value@).1,
{
    match base_config_insert_json5(c, key, value) {
        Ok(()) => Ok(()),
        Err(message) => Err(Error { message }),
    }
}

/// Build a default configuration.
pub fn z_config_default() -> (r: ZConfig)
    ensures
        config_get_json_outcome(r, "mode"@) == Ok::<Seq<char>, Seq<char>>("null"@),
{
    config_new_default()
}

/// Clone a configuration handle.
pub fn z_config_clone(c: &ZConfig) -> (r: ZConfig)
    ensures
        r == *c,
{
    config_new_clone(c)
}

/// Parse a configuration from a JSON-formatted string.
pub fn z_config_from_json(s: &str) -> (r: Result<ZConfig, Error>)
    ensures
        r is Ok <==> config_json5_accepts(s@),
        parsed_config_result(r, config_json5_outcome(s@), "JSON error: "@),
{
    z_config_from_json5(s)
}

/// Parse a configuration from a JSON5-formatted string.
pub fn z_config_from_json5(s: &str) -> (r: Result<ZConfig, Error>)
    ensures
        r is Ok <==> config_json5_accepts(s@),
        parsed_config_result(r, config_json5_outcome(s@), "JSON error: "@),
{
    config_new_from_json5(s)
}

/// Parse a configuration from a YAML-formatted string.
pub fn z_config_from_yaml(s: &str) -> (r: Result<ZConfig, Error>)
    ensures
        r is Ok <==> config_yaml_accepts(s@),
        parsed_config_result(r, config_yaml_outcome(s@), "YAML error: "@),
{
    config_new_from_yaml(s)
}

/// Return the JSON value associated with `key` in the configuration.
pub fn z_config_get_json(c: &ZConfig, key: &str) -> (r: Result<String, Error>)
    ensures
        r is Ok <==> config_get_json_outcome(*c, key@) is Ok,
        r matches Ok(j) ==> config_get_json_outcome(*c, key@) == Ok::<Seq<char>, Seq<char>>(j@),
        r matches Err(e) ==> config_get_json_outcome(*c, key@) == Err::<Seq<char>, Seq<char>>(e.message@),
{
    config_get_json(c, key)
}

/// Insert a JSON5-formatted value at `key` in the configuration.
pub fn z_config_insert_json5(c: &mut ZConfig, key: &str, value: &str) -> (r: Result<(), Error>)
    ensures
        r is Ok <==> config_insert_json5_outcome(*old(c), key@, value@).0 is Ok,
        r matches Err(e) ==> config_insert_json5_outcome(*old(c), key@, value@).0
            == Err::<(), Seq<char>>(e.message@),
        *final(c) == config_insert_json5_outcome(*old(c), key@, value@).1,
{
    config_insert_json5(c, key, value)
}

} // verus!
