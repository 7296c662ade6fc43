//! Discovery: hello messages and the node kinds scouting looks for.
use vstd::prelude::*;
use crate::config::{WhatAmI, whatami_bit};
use crate::error::Error;
use crate::zenoh_id::ZenohId;

verus! {

/// The texts of a list of strings.
pub open spec fn strings_view(v: Seq<String>) -> Seq<Seq<char>> {
    v.map_values(|s: String| s@)
}

/// Copy a list of strings.
pub fn clone_strings(v: &Vec<String>) -> (r: Vec<String>)
    ensures
        strings_view(r@) == strings_view(v@),
{
    let mut r: Vec<String> = Vec::new();
    let mut i: usize = 0;
    while i < v.len()
        invariant
            i <= v.len(),
            r@.len() == i,
            forall|j: int| 0 <= j < i ==> #[trigger] r@[j]@ == v@[j]@,
        decreases v.len() - i,
    {
        r.push(v[i].clone());
        i = i + 1;
    }
    assert(strings_view(r@) =~= strings_view(v@));
    r
}

/// A discovery announcement received while scouting.
#[derive(Debug, PartialEq, Eq)]
pub struct Hello {
    whatami: WhatAmI,
    zid: ZenohId,
    locators: Vec<String>,
}

/// What a hello message holds.
pub ghost struct HelloView {
    pub whatami: WhatAmI,
    pub zid: ZenohId,
    pub locators: Seq<Seq<char>>,
}

impl View for Hello {
    type V = HelloView;

    closed spec fn view(&self) -> HelloView {
        HelloView { whatami: self.whatami, zid: self.zid, locators: strings_view(self.locators@) }
    }
}

/// A discovery announcement decomposed into a plain value.
#[derive(Debug, PartialEq, Eq)]
pub struct HelloStruct {
    /// Node type that emitted this hello message.
    pub whatami: WhatAmI,
    /// Zenoh id of the node that emitted this hello message.
    pub zid: ZenohId,
    /// Locators advertised in this hello message.
    pub locators: Vec<String>,
}

impl View for HelloStruct {
    type V = HelloView;

    open spec fn view(&self) -> HelloView {
        HelloView { whatami: self.whatami, zid: self.zid, locators: strings_view(self.locators@) }
    }
}

impl Clone for HelloStruct {
    fn clone(&self) -> (r: Self)
        ensures
            r@ == self@,
    {
        HelloStruct { whatami: self.whatami, zid: self.zid, locators: clone_strings(&self.locators) }
    }
}

/// Node type that emitted this hello message.
pub fn hello_get_whatami(h: &Hello) -> (r: WhatAmI)
    ensures
        r == h@.whatami,
{
    h.whatami
}

/// Zenoh id of the node that emitted this hello message.
pub fn hello_get_zid(h: &Hello) -> (r: ZenohId)
    ensures
        r == h@.zid,
{
    h.zid
}

/// Locators advertised in this hello message.
pub fn hello_get_locators(h: &Hello) -> (r: Vec<String>)
    ensures
        strings_view(r@) == h@.locators,
{
    clone_strings(&h.locators)
}

/// Decompose a hello message into its value form, field by field through the
/// accessors.
pub fn hello_to_struct(h: &Hello) -> (r: HelloStruct)
    ensures
        r@ == h@,
{
    HelloStruct {
        whatami: hello_get_whatami(h),
        zid: hello_get_zid(h),
        locators: hello_get_locators(h),
    }
}

/// Rebuild a hello message from its value form; the inverse of
/// [`hello_to_struct`]. This is how a hello that zenoh delivers enters the
/// library.
pub fn hello_from_struct(st: HelloStruct) -> (r: Hello)
    ensures
        r@ == st@,
{
    Hello { whatami: st.whatami, zid: st.zid, locators: st.locators }
}

#[verifier::external_type_specification]
#[verifier::external_body]
pub struct ExWhatAmIMatcher(zenoh::config::WhatAmIMatcher);

/// Whether `bits` selects node kinds zenoh can scout for: any combination of
/// the router, peer and client bits (zenoh's `WhatAmIMatcher::try_from(u8)`
/// accepts exactly `0..=7`).
pub open spec fn whatami_bits_valid(bits: int) -> bool {
    0 <= bits <= 7
}

/// The matcher zenoh's `WhatAmIMatcher::try_from(u8)` builds from `bits`.
pub uninterp spec fn whatami_matcher_of(bits: u8) -> zenoh::config::WhatAmIMatcher;

/// The character of a digit below 10.
pub open spec fn digit_char(d: nat) -> char {
    (d + 48) as char
}

/// The decimal digits of `n`, without leading zeros.
pub open spec fn decimal_digits(n: nat) -> Seq<char>
    decreases n,
{
    if n < 10 {
        seq![digit_char(n)]
    } else {
        decimal_digits(n / 10) + seq![digit_char(n % 10)]
    }
}

/// `n` in decimal, with a leading `-` when it is negative.
pub open spec fn decimal_text(n: int) -> Seq<char> {
    if n < 0 {
        seq!['-'] + decimal_digits((-n) as nat)
    } else {
        decimal_digits(n as nat)
    }
}

/// The binary digits of `n`, without leading zeros.
pub open spec fn binary_digits(n: nat) -> Seq<char>
    decreases n,
{
    if n < 2 {
        seq![digit_char(n)]
    } else {
        binary_digits(n / 2) + seq![digit_char(n % 2)]
    }
}

/// The message with which scouting refuses the bitfield `whatami`: in
/// decimal when it does not fit in a byte, in binary after `0b` otherwise.
pub open spec fn invalid_whatami_message(whatami: int) -> Seq<char> {
    if whatami < 0 || whatami > 255 {
        "invalid whatami bitfield: "@ + decimal_text(whatami)
    } else {
        "invalid whatami bitfield: 0b"@ + binary_digits(whatami as nat)
    }
}

/// zenoh's `WhatAmIMatcher::try_from(u8)`, which per its source accepts
/// exactly the values `0..=7`.
#[verifier::external_body]
fn base_whatami_matcher(bits: u8) -> (r: Option<zenoh::config::WhatAmIMatcher>)
    ensures
        r is Some <==> bits <= 7,
        r matches Some(m) ==> m == whatami_matcher_of(bits),
{
    zenoh::config::WhatAmIMatcher::try_from(bits).ok()
}

/// std's `Display` for `i32`: the number in decimal.
#[verifier::external_body]
fn std_i32_decimal(n: i32) -> (r: String)
    ensures
        r@ == decimal_text(n as int),
{
    n.to_string()
}

/// std's binary formatting (`{:b}`) of a byte: its binary digits without
/// leading zeros.
#[verifier::external_body]
fn std_u8_binary(n: u8) -> (r: String)
    ensures
        r@ == binary_digits(n as nat),
{
    format!("{n:b}")
}

/// The error with which scouting refuses the bitfield `whatami`.
fn invalid_whatami_error(whatami: i32) -> (e: Error)
    ensures
        e.message@ == invalid_whatami_message(whatami as int),
{
    if whatami < 0 || whatami > 255 {
        let mut message = String::from_str("invalid whatami bitfield: ");
        message.append(std_i32_decimal(whatami).as_str());
        Error { message }
    } else {
        let mut message = String::from_str("invalid whatami bitfield: 0b");
        message.append(std_u8_binary(whatami as u8).as_str());
        Error { message }
    }
}

/// Turn the raw node-kind bitfield that scouting takes into zenoh's matcher:
/// router `1`, peer `2` and client `4`, combined with a bitwise or. Any other
/// value is refused, with its value in decimal when it does not fit in a
/// byte and in binary otherwise.
pub fn scout_whatami_matcher(whatami: i32) -> (r: Result<zenoh::config::WhatAmIMatcher, Error>)
    ensures
        r is Ok <==> whatami_bits_valid(whatami as int),
        r matches Ok(m) ==> m == whatami_matcher_of(whatami as u8),
        r matches Err(e) ==> e.message@ == invalid_whatami_message(whatami as int),
{
    if whatami < 0 || whatami > 255 {
        return Err(invalid_whatami_error(whatami));
    }
    match base_whatami_matcher(whatami as u8) {
        Some(m) => Ok(m),
        None => Err(invalid_whatami_error(whatami)),
    }
}

/// Every single role, and every combination of roles, is a bitfield that
/// scouting accepts.
pub proof fn law_role_combinations_are_scoutable(r: bool, p: bool, c: bool)
    ensures
        whatami_bits_valid(
            (if r { whatami_bit(WhatAmI::Router) as int } else { 0 })
            + (if p { whatami_bit(WhatAmI::Peer) as int } else { 0 })
            + (if c { whatami_bit(WhatAmI::Client) as int } else { 0 })),
{
}

} // verus!
