//! Node identifiers and entity identifiers.
use vstd::prelude::*;
use crate::error::Error;
use zenoh::session::ZenohId as BaseZenohId;

verus! {

/// Width of a [`ZenohId`] in bytes; zenoh's own `ZenohId::MAX_SIZE`.
pub const ZENOH_ID_MAX_SIZE: usize = 16;

/// Identifier of a Zenoh node, as a plain value.
///
/// The identifier is a 128-bit value held little-endian and zero-padded to
/// the full width, exactly as zenoh's `ZenohId::to_le_bytes` gives it.
#[derive(Clone, Copy, Debug, PartialEq, Eq, Hash)]
pub struct ZenohId {
    /// Bytes of the identifier, little-endian, zero-padded to the full width.
    pub bytes: [u8; 16],
}

/// Whether some byte of `bytes` is not zero: the condition under which zenoh
/// (through `uhlc::ID::try_from(&[u8])`) accepts at most 16 bytes as an
/// identifier.
pub open spec fn id_bytes_nonzero(bytes: Seq<u8>) -> bool {
    exists|i: int| 0 <= i < bytes.len() && bytes[i] != 0
}

/// The lowercase hexadecimal digit for a value below 16.
pub open spec fn hex_digit_char(d: nat) -> char {
    if d < 10 {
        (d + 48) as char
    } else {
        (d + 87) as char
    }
}

/// `n` in lowercase hexadecimal, without leading zeros.
pub open spec fn hex_digits(n: nat) -> Seq<char>
    decreases n,
{
    if n < 16 {
        seq![hex_digit_char(n)]
    } else {
        hex_digits(n / 16) + seq![hex_digit_char(n % 16)]
    }
}

/// The number whose little-endian bytes are `bytes`.
pub open spec fn le_value(bytes: Seq<u8>) -> nat
    decreases bytes.len(),
{
    if bytes.len() == 0 {
        0
    } else {
        bytes[0] as nat + 256 * le_value(bytes.drop_first())
    }
}

/// The text zenoh's `Display` for `ZenohId` renders the identifier with the
/// given little-endian bytes as: per uhlc's `ID` (`{:x}` of
/// `u128::from_le_bytes`), the value in lowercase hexadecimal without
/// leading zeros, so zero padding never shows.
pub open spec fn zenoh_id_rendering(bytes: Seq<u8>) -> Seq<char> {
    hex_digits(le_value(bytes))
}

/// Zero bytes have the value zero.
proof fn lemma_le_value_zeros(n: nat)
    ensures
        le_value(Seq::new(n, |i: int| 0u8)) == 0,
    decreases n,
{
    if n > 0 {
        let z = Seq::new(n, |i: int| 0u8);
        assert(z.drop_first() =~= Seq::new((n - 1) as nat, |i: int| 0u8));
        lemma_le_value_zeros((n - 1) as nat);
    }
}

/// Zero padding in the high-order bytes of an identifier changes neither its
/// value nor its rendering.
pub proof fn law_padding_is_invisible(bytes: Seq<u8>, n: nat)
    ensures
        le_value(bytes + Seq::new(n, |i: int| 0u8)) == le_value(bytes),
        zenoh_id_rendering(bytes + Seq::new(n, |i: int| 0u8)) == zenoh_id_rendering(bytes),
    decreases bytes.len(),
{
    let z = Seq::new(n, |i: int| 0u8);
    if bytes.len() == 0 {
        assert(bytes + z =~= z);
        lemma_le_value_zeros(n);
    } else {
        law_padding_is_invisible(bytes.drop_first(), n);
        assert((bytes + z).drop_first() =~= bytes.drop_first() + z);
        assert((bytes + z)[0] == bytes[0]);
    }
}

/// zenoh's `ZenohId::try_from(&[u8])` followed by its `Display`. The
/// conversion, per `uhlc::ID::try_from`, fails exactly for a slice longer than
/// 16 bytes or one whose bytes are all zero.
#[verifier::external_body]
fn base_zenoh_id_render(bytes: &[u8; 16]) -> (r: Result<String, Error>)
    ensures
        r is Ok <==> id_bytes_nonzero(bytes@),
        r matches Ok(s) ==> s@ == zenoh_id_rendering(bytes@),
{
    match zenoh::session::ZenohId::try_from(&bytes[..]) {
        Ok(z) => Ok(z.to_string()),
        Err(e) => Err(Error { message: e.to_string() }),
    }
}

/// Format a Zenoh node identifier as its standard string form.
///
/// Fails only for all-zero bytes, which are not an identifier. Rendering is
/// zenoh's own.
pub fn zenoh_id_to_string(z: &ZenohId) -> (r: Result<String, Error>)
    ensures
        r is Ok <==> id_bytes_nonzero(z.bytes@),
        r matches Ok(s) ==> s@ == zenoh_id_rendering(z.bytes@),
{
    base_zenoh_id_render(&z.bytes)
}

/// Global identifier of an entity (publisher, subscriber, …) in a Zenoh
/// system: the node's [`ZenohId`] plus the entity's per-session id.
#[derive(Clone, Copy, Debug, PartialEq, Eq)]
pub struct EntityGlobalId {
    /// Identifier of the node the entity belongs to.
    pub zid: ZenohId,
    /// Entity identifier within its session.
    pub eid: u32,
}

#[verifier::external_type_specification]
#[verifier::external_body]
pub struct ExBaseZenohId(BaseZenohId);

/// The little-endian bytes zenoh's `ZenohId::to_le_bytes` gives for a node
/// identifier.
pub uninterp spec fn base_zenoh_id_le_bytes(z: BaseZenohId) -> Seq<u8>;

/// zenoh's `ZenohId::to_le_bytes`.
#[verifier::external_body]
fn base_zenoh_id_to_le_bytes(z: BaseZenohId) -> (r: [u8; 16])
    ensures
        r@ == base_zenoh_id_le_bytes(z),
{
    z.to_le_bytes()
}

/// A zenoh node identifier as a plain value: zenoh's own little-endian
/// bytes, zero-padded to the full width.
pub fn zenoh_id_from_base(z: BaseZenohId) -> (r: ZenohId)
    ensures
        r.bytes@ == base_zenoh_id_le_bytes(z),
{
    ZenohId { bytes: base_zenoh_id_to_le_bytes(z) }
}

} // verus!
