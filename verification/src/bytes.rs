//! Payloads and their encodings.
use vstd::prelude::*;
use vstd::utf8::{valid_utf8, decode_utf8, encode_utf8};
use crate::error::Error;

verus! {

// ── Payloads ────────────────────────────────────────────────────────────

/// A payload: a sequence of bytes.
#[derive(Debug, PartialEq, Eq)]
pub struct ZBytes {
    bytes: Vec<u8>,
}

/// The native payload handle of the thin surface; the same type.
pub type ZZBytes = ZBytes;

impl View for ZBytes {
    type V = Seq<u8>;

    closed spec fn view(&self) -> Seq<u8> {
        self.bytes@
    }
}

impl Clone for ZBytes {
    fn clone(&self) -> (r: Self)
        ensures
            r@ == self@,
    {
        ZBytes { bytes: vstd::slice::slice_to_vec(self.bytes.as_slice()) }
    }
}

/// zenoh's `ZBytes::try_to_string`: the payload decoded as UTF-8, failing
/// exactly when the bytes are not valid UTF-8 (zenoh decodes with
/// `std::str::from_utf8`).
#[verifier::external_body]
fn base_zbytes_try_to_string(bytes: &[u8]) -> (r: Result<String, Error>)
    ensures
        r is Ok <==> valid_utf8(bytes@),
        r matches Ok(s) ==> s@ == decode_utf8(bytes@),
{
    match zenoh::bytes::ZBytes::from(bytes.to_vec()).try_to_string() {
        Ok(s) => Ok(s.into_owned()),
        Err(e) => Err(Error { message: e.to_string() }),
    }
}

/// Return the number of bytes in the payload.
pub fn zbytes_len(z: &ZBytes) -> (r: usize)
    ensures
        r == z@.len(),
{
    z.bytes.len()
}

/// Return whether the payload is empty.
pub fn zbytes_is_empty(z: &ZBytes) -> (r: bool)
    ensures
        r == (z@.len() == 0),
{
    z.bytes.len() == 0
}

/// Return the payload as a contiguous sequence of bytes.
pub fn zbytes_to_bytes(z: &ZBytes) -> (r: &[u8])
    ensures
        r@ == z@,
{
    z.bytes.as_slice()
}

/// Return the payload decoded as UTF-8 text; fails if the payload is not
/// valid UTF-8. Decoding is zenoh's.
pub fn zbytes_try_to_string(z: &ZBytes) -> (r: Result<String, Error>)
    ensures
        r is Ok <==> valid_utf8(z@),
        r matches Ok(s) ==> s@ == decode_utf8(z@),
{
    base_zbytes_try_to_string(z.bytes.as_slice())
}

/// Create a payload from a sequence of bytes.
pub fn zbytes_new_from_slice(bytes: &[u8]) -> (r: ZBytes)
    ensures
        r@ == bytes@,
{
    ZBytes { bytes: vstd::slice::slice_to_vec(bytes) }
}

/// Create an independent copy of a payload.
pub fn zbytes_new_clone(z: &ZBytes) -> (r: ZBytes)
    ensures
        r@ == z@,
{
    z.clone()
}

/// A payload made from the UTF-8 bytes of a text decodes back to exactly
/// that text, and a payload that decodes as text re-encodes to exactly its
/// own bytes: [`zbytes_try_to_string`] loses nothing.
pub proof fn law_text_payload_round_trip(text: Seq<char>, bytes: Seq<u8>)
    ensures
        valid_utf8(encode_utf8(text)),
        decode_utf8(encode_utf8(text)) == text,
        valid_utf8(bytes) ==> encode_utf8(decode_utf8(bytes)) == bytes,
{
    vstd::utf8::encode_utf8_valid_utf8(text);
    vstd::utf8::encode_utf8_decode_utf8(text);
    if valid_utf8(bytes) {
        vstd::utf8::decode_utf8_encode_utf8(bytes);
    }
}

/// Create a payload from a byte sequence, taking ownership of it.
pub fn zbytes_new_from_vec(bytes: Vec<u8>) -> (r: ZBytes)
    ensures
        r@ == bytes@,
{
    ZBytes { bytes }
}

/// Read the payload bytes into an owned buffer.
pub fn z_zbytes_to_bytes(z: &ZZBytes) -> (r: Vec<u8>)
    ensures
        r@ == z@,
{
    vstd::slice::slice_to_vec(zbytes_to_bytes(z))
}

/// Construct a payload from a borrowed byte slice, copying the bytes.
pub fn z_zbytes_from_slice(bytes: &[u8]) -> (r: ZZBytes)
    ensures
        r@ == bytes@,
{
    zbytes_new_from_slice(bytes)
}

/// Clone a payload into a new owned handle.
pub fn z_zbytes_clone(z: &ZZBytes) -> (r: ZZBytes)
    ensures
        r@ == z@,
{
    zbytes_new_clone(z)
}

/// Construct a payload from an owned byte buffer without copying.
pub fn z_zbytes_from_vec(bytes: Vec<u8>) -> (r: ZZBytes)
    ensures
        r@ == bytes@,
{
    zbytes_new_from_vec(bytes)
}

// ── Encodings ───────────────────────────────────────────────────────────

/// The identifier zenoh reserves for custom encodings, whose name is carried
/// in the schema (`Encoding::CUSTOM_ENCODING_ID`).
pub const CUSTOM_ENCODING_ID: u16 = 0xFFFF;

/// Format information for a payload: a numeric identifier and an optional
/// schema, as zenoh's `Encoding` holds them.
#[derive(Debug, PartialEq, Eq)]
pub struct Encoding {
    id: u16,
    schema: Option<Vec<u8>>,
}

/// The native encoding handle of the thin surface; the same type.
pub type ZEncoding = Encoding;

/// What an [`Encoding`] holds.
pub ghost struct EncodingView {
    pub id: u16,
    pub schema: Option<Seq<u8>>,
}

/// The bytes of an optional schema buffer.
pub open spec fn opt_bytes_view(b: Option<Vec<u8>>) -> Option<Seq<u8>> {
    match b {
        Some(v) => Some(v@),
        None => None,
    }
}

impl View for Encoding {
    type V = EncodingView;

    closed spec fn view(&self) -> EncodingView {
        EncodingView { id: self.id, schema: opt_bytes_view(self.schema) }
    }
}

fn clone_opt_bytes(b: &Option<Vec<u8>>) -> (r: Option<Vec<u8>>)
    ensures
        opt_bytes_view(r) == opt_bytes_view(*b),
{
    match b {
        Some(v) => Some(vstd::slice::slice_to_vec(v.as_slice())),
        None => None,
    }
}

impl Clone for Encoding {
    fn clone(&self) -> (r: Self)
        ensures
            r@ == self@,
    {
        Encoding { id: self.id, schema: clone_opt_bytes(&self.schema) }
    }
}

/// The text zenoh's `Display` for `Encoding` renders an encoding as.
pub uninterp spec fn encoding_rendering(id: u16, schema: Option<Seq<u8>>) -> Seq<char>;

/// The identifier and schema zenoh's `Encoding::from(&str)` resolves a text to.
pub uninterp spec fn encoding_parsed(text: Seq<char>) -> (u16, Option<Seq<u8>>);

/// The characters of `t` before its first `c` (all of `t` when it has none).
pub open spec fn text_before(t: Seq<char>, c: char) -> Seq<char>
    decreases t.len(),
{
    if t.len() == 0 || t[0] == c {
        Seq::<char>::empty()
    } else {
        seq![t[0]] + text_before(t.drop_first(), c)
    }
}

/// The name part of a custom encoding's schema: its text (empty when it is
/// absent or not UTF-8) up to the first `;`.
pub open spec fn custom_name_part(schema: Option<Seq<u8>>) -> Seq<char> {
    let text = match schema_text(schema) {
        Some(t) => t,
        None => Seq::<char>::empty(),
    };
    text_before(text, ';')
}

/// The schema bytes zenoh's `Encoding::with_schema` leaves on an encoding:
/// the UTF-8 bytes of `s`, except that for the custom identifier a
/// non-empty name part of the old schema is kept, followed by `;` and `s`
/// when `s` is not empty.
pub open spec fn encoding_merged_schema(id: u16, schema: Option<Seq<u8>>, s: Seq<char>) -> Seq<u8> {
    if id != CUSTOM_ENCODING_ID || custom_name_part(schema).len() == 0 {
        encode_utf8(s)
    } else if s.len() == 0 {
        encode_utf8(custom_name_part(schema))
    } else {
        encode_utf8(custom_name_part(schema) + seq![';'] + s)
    }
}

/// Setting a schema reads back exactly that schema, except on a custom
/// encoding whose schema already has a non-empty name part, which zenoh keeps
/// in front of it.
pub proof fn law_schema_reads_back(id: u16, schema: Option<Seq<u8>>, s: Seq<char>)
    requires
        id != CUSTOM_ENCODING_ID || custom_name_part(schema).len() == 0,
    ensures
        schema_text(Some(encoding_merged_schema(id, schema, s))) == Some(s),
{
    vstd::utf8::encode_utf8_valid_utf8(s);
    vstd::utf8::encode_utf8_decode_utf8(s);
}

/// The schema text of an encoding as [`encoding_get_schema`] reports it:
/// present when the schema is present and valid UTF-8.
pub open spec fn schema_text(schema: Option<Seq<u8>>) -> Option<Seq<char>> {
    match schema {
        Some(b) => if valid_utf8(b) { Some(decode_utf8(b)) } else { None },
        None => None,
    }
}

/// `std::str::from_utf8`, kept when it succeeds: it succeeds exactly on
/// valid UTF-8.
#[verifier::external_body]
fn std_utf8_to_string(bytes: &[u8]) -> (r: Option<String>)
    ensures
        r is Some <==> valid_utf8(bytes@),
        r matches Some(s) ==> s@ == decode_utf8(bytes@),
{
    std::str::from_utf8(bytes).ok().map(|s| s.to_string())
}

/// zenoh's `Display` for `Encoding`.
#[verifier::external_body]
fn base_encoding_to_string(id: u16, schema: &Option<Vec<u8>>) -> (r: String)
    ensures
        r@ == encoding_rendering(id, opt_bytes_view(*schema)),
{
    zenoh::bytes::Encoding::new(id, schema.clone().map(|s| s.into())).to_string()
}

/// zenoh's `Encoding::from(&str)`; its source maps the empty text to the
/// default encoding (id 0, no schema).
#[verifier::external_body]
fn base_encoding_from_str(s: &str) -> (r: (u16, Option<Vec<u8>>))
    ensures
        (r.0, opt_bytes_view(r.1)) == encoding_parsed(s@),
        s@.len() == 0 ==> r.0 == 0 && r.1 is None,
{
    let e = zenoh::bytes::Encoding::from(s);
    (e.id(), e.schema().map(|z| z.to_vec()))
}

/// zenoh's `Encoding::with_schema`; its source keeps the identifier and
/// always sets a schema, as [`encoding_merged_schema`] states.
#[verifier::external_body]
fn base_encoding_with_schema(id: u16, schema: &Option<Vec<u8>>, s: String) -> (r: Vec<u8>)
    ensures
        r@ == encoding_merged_schema(id, opt_bytes_view(*schema), s@),
        id != CUSTOM_ENCODING_ID ==> r@ == encode_utf8(s@),
{
    let e = zenoh::bytes::Encoding::new(id, schema.clone().map(|z| z.into())).with_schema(s);
    e.schema().map(|z| z.to_vec()).unwrap_or_default()
}

/// zenoh's default encoding (`Encoding::default()`), which its source
/// defines as `ZENOH_BYTES`: id 0, no schema.
#[verifier::external_body]
pub(crate) fn base_default_encoding() -> (r: Encoding)
    ensures
        r@ == (EncodingView { id: 0, schema: None }),
{
    let e = zenoh::bytes::Encoding::default();
    Encoding { id: e.id(), schema: e.schema().map(|z| z.to_vec()) }
}

/// Create an encoding from its identifier and raw schema bytes, as zenoh's
/// `Encoding::new` does.
pub fn encoding_new(id: u16, schema: Option<Vec<u8>>) -> (r: Encoding)
    ensures
        r@ == (EncodingView { id: id, schema: opt_bytes_view(schema) }),
{
    Encoding { id, schema }
}

fn encoding_preset(id: u16) -> (r: Encoding)
    ensures
        r@ == (EncodingView { id: id, schema: None }),
{
    Encoding { id, schema: None }
}

/// Return the numeric identifier of an encoding.
pub fn encoding_get_id(e: &Encoding) -> (r: i32)
    ensures
        r == e@.id as i32,
{
    e.id as i32
}

/// Create an independent copy of an encoding.
pub fn encoding_new_clone(e: &Encoding) -> (r: Encoding)
    ensures
        r@ == e@,
{
    e.clone()
}

/// Return the schema associated with an encoding, when present and UTF-8.
pub fn encoding_get_schema(e: &Encoding) -> (r: Option<String>)
    ensures
        r is Some <==> schema_text(e@.schema) is Some,
        r matches Some(s) ==> s@ == schema_text(e@.schema).unwrap(),
{
    match &e.schema {
        Some(b) => std_utf8_to_string(b.as_slice()),
        None => None,
    }
}

/// Return the raw schema bytes of an encoding, when present, whether or not
/// they are UTF-8.
pub fn encoding_get_schema_bytes(e: &Encoding) -> (r: Option<Vec<u8>>)
    ensures
        opt_bytes_view(r) == e@.schema,
{
    clone_opt_bytes(&e.schema)
}

/// Return the standard textual representation of an encoding (zenoh's).
pub fn encoding_to_string(e: &Encoding) -> (r: String)
    ensures
        r@ == encoding_rendering(e@.id, e@.schema),
{
    base_encoding_to_string(e.id, &e.schema)
}

/// Create an encoding from its textual representation.
///
/// Known names resolve to their standard identifiers; other names are
/// preserved as custom encodings (zenoh's resolution).
pub fn encoding_new_from_string(s: String) -> (r: Encoding)
    ensures
        (r@.id, r@.schema) == encoding_parsed(s@),
        s@.len() == 0 ==> r@ == (EncodingView { id: 0, schema: None }),
{
    let (id, schema) = base_encoding_from_str(s.as_str());
    Encoding { id, schema }
}

/// Create an encoding from its numeric identifier and optional schema.
///
/// The identifier is taken modulo 2^16, as zenoh's identifiers are 16 bits
/// wide; the schema is stored as its UTF-8 bytes.
pub fn encoding_new_from_id(id: i32, schema: Option<String>) -> (r: Encoding)
    ensures
        r@.id == id as u16,
        r@.schema == (match schema {
            Some(s) => Some(encode_utf8(s@)),
            None => None::<Seq<u8>>,
        }),
{
    let bytes = match schema {
        Some(s) => Some(vstd::slice::slice_to_vec(s.as_str().as_bytes())),
        None => None,
    };
    Encoding { id: id as u16, schema: bytes }
}

/// Create an encoding with the supplied schema.
pub fn encoding_new_with_schema(e: &Encoding, schema: String) -> (r: Encoding)
    ensures
        r@.id == e@.id,
        r@.schema == Some(encoding_merged_schema(e@.id, e@.schema, schema@)),
        e@.id != CUSTOM_ENCODING_ID ==> r@.schema == Some(encode_utf8(schema@)),
{
    let bytes = base_encoding_with_schema(e.id, &e.schema, schema);
    Encoding { id: e.id, schema: Some(bytes) }
}

/// Numeric id of the encoding.
pub fn z_encoding_id(e: &ZEncoding) -> (r: i32)
    ensures
        r == e@.id as i32,
{
    encoding_get_id(e)
}

/// Clone an encoding into an owned handle.
pub fn z_encoding_clone(e: &ZEncoding) -> (r: ZEncoding)
    ensures
        r@ == e@,
{
    encoding_new_clone(e)
}

/// Optional textual schema attached to the encoding.
pub fn z_encoding_schema(e: &ZEncoding) -> (r: Option<String>)
    ensures
        r is Some <==> schema_text(e@.schema) is Some,
        r matches Some(s) ==> s@ == schema_text(e@.schema).unwrap(),
{
    encoding_get_schema(e)
}

/// Canonical display string for an encoding.
pub fn z_encoding_to_string(e: &ZEncoding) -> (r: String)
    ensures
        r@ == encoding_rendering(e@.id, e@.schema),
{
    encoding_to_string(e)
}

/// Parse a textual encoding.
pub fn z_encoding_from_string(s: String) -> (r: ZEncoding)
    ensures
        (r@.id, r@.schema) == encoding_parsed(s@),
{
    encoding_new_from_string(s)
}

/// Build an encoding from its numeric id and optional schema.
pub fn z_encoding_from_id(id: i32, schema: Option<String>) -> (r: ZEncoding)
    ensures
        r@.id == id as u16,
        r@.schema == (match schema {
            Some(s) => Some(encode_utf8(s@)),
            None => None::<Seq<u8>>,
        }),
{
    encoding_new_from_id(id, schema)
}

/// Return a copy of `encoding` with `schema` attached.
pub fn z_encoding_with_schema(encoding: &ZEncoding, schema: String) -> (r: ZEncoding)
    ensures
        r@.id == encoding@.id,
        r@.schema == Some(encoding_merged_schema(encoding@.id, encoding@.schema, schema@)),
{
    encoding_new_with_schema(encoding, schema)
}

/// Predefined `ZENOH_BYTES` encoding (zenoh's `Encoding::ZENOH_BYTES`: id 0, no schema).
pub fn encoding_const_zenoh_bytes() -> (r: Encoding)
    ensures
        r@ == (EncodingView { id: 0, schema: None }),
{
    encoding_preset(0)
}

/// Predefined `ZENOH_STRING` encoding (zenoh's `Encoding::ZENOH_STRING`: id 1, no schema).
pub fn encoding_const_zenoh_string() -> (r: Encoding)
    ensures
        r@ == (EncodingView { id: 1, schema: None }),
{
    encoding_preset(1)
}

/// Predefined `ZENOH_SERIALIZED` encoding (zenoh's `Encoding::ZENOH_SERIALIZED`: id 2, no schema).
pub fn encoding_const_zenoh_serialized() -> (r: Encoding)
    ensures
        r@ == (EncodingView { id: 2, schema: None }),
{
    encoding_preset(2)
}

/// Predefined `APPLICATION_OCTET_STREAM` encoding (zenoh's `Encoding::APPLICATION_OCTET_STREAM`: id 3, no schema).
pub fn encoding_const_application_octet_stream() -> (r: Encoding)
    ensures
        r@ == (EncodingView { id: 3, schema: None }),
{
    encoding_preset(3)
}

/// Predefined `TEXT_PLAIN` encoding (zenoh's `Encoding::TEXT_PLAIN`: id 4, no schema).
pub fn encoding_const_text_plain() -> (r: Encoding)
    ensures
        r@ == (EncodingView { id: 4, schema: None }),
{
    encoding_preset(4)
}

/// Predefined `APPLICATION_JSON` encoding (zenoh's `Encoding::APPLICATION_JSON`: id 5, no schema).
pub fn encoding_const_application_json() -> (r: Encoding)
    ensures
        r@ == (EncodingView { id: 5, schema: None }),
{
    encoding_preset(5)
}

/// Predefined `TEXT_JSON` encoding (zenoh's `Encoding::TEXT_JSON`: id 6, no schema).
pub fn encoding_const_text_json() -> (r: Encoding)
    ensures
        r@ == (EncodingView { id: 6, schema: None }),
{
    encoding_preset(6)
}

/// Predefined `APPLICATION_CDR` encoding (zenoh's `Encoding::APPLICATION_CDR`: id 7, no schema).
pub fn encoding_const_application_cdr() -> (r: Encoding)
    ensures
        r@ == (EncodingView { id: 7, schema: None }),
{
    encoding_preset(7)
}

/// Predefined `APPLICATION_CBOR` encoding (zenoh's `Encoding::APPLICATION_CBOR`: id 8, no schema).
pub fn encoding_const_application_cbor() -> (r: Encoding)
    ensures
        r@ == (EncodingView { id: 8, schema: None }),
{
    encoding_preset(8)
}

/// Predefined `APPLICATION_YAML` encoding (zenoh's `Encoding::APPLICATION_YAML`: id 9, no schema).
pub fn encoding_const_application_yaml() -> (r: Encoding)
    ensures
        r@ == (EncodingView { id: 9, schema: None }),
{
    encoding_preset(9)
}

/// Predefined `TEXT_YAML` encoding (zenoh's `Encoding::TEXT_YAML`: id 10, no schema).
pub fn encoding_const_text_yaml() -> (r: Encoding)
    ensures
        r@ == (EncodingView { id: 10, schema: None }),
{
    encoding_preset(10)
}

/// Predefined `TEXT_JSON5` encoding (zenoh's `Encoding::TEXT_JSON5`: id 11, no schema).
pub fn encoding_const_text_json5() -> (r: Encoding)
    ensures
        r@ == (EncodingView { id: 11, schema: None }),
{
    encoding_preset(11)
}

/// Predefined `APPLICATION_PYTHON_SERIALIZED_OBJECT` encoding (zenoh's `Encoding::APPLICATION_PYTHON_SERIALIZED_OBJECT`: id 12, no schema).
pub fn encoding_const_application_python_serialized_object() -> (r: Encoding)
    ensures
        r@ == (EncodingView { id: 12, schema: None }),
{
    encoding_preset(12)
}

/// Predefined `APPLICATION_PROTOBUF` encoding (zenoh's `Encoding::APPLICATION_PROTOBUF`: id 13, no schema).
pub fn encoding_const_application_protobuf() -> (r: Encoding)
    ensures
        r@ == (EncodingView { id: 13, schema: None }),
{
    encoding_preset(13)
}

/// Predefined `APPLICATION_JAVA_SERIALIZED_OBJECT` encoding (zenoh's `Encoding::APPLICATION_JAVA_SERIALIZED_OBJECT`: id 14, no schema).
pub fn encoding_const_application_java_serialized_object() -> (r: Encoding)
    ensures
        r@ == (EncodingView { id: 14, schema: None }),
{
    encoding_preset(14)
}

/// Predefined `APPLICATION_OPENMETRICS_TEXT` encoding (zenoh's `Encoding::APPLICATION_OPENMETRICS_TEXT`: id 15, no schema).
pub fn encoding_const_application_openmetrics_text() -> (r: Encoding)
    ensures
        r@ == (EncodingView { id: 15, schema: None }),
{
    encoding_preset(15)
}

/// Predefined `IMAGE_PNG` encoding (zenoh's `Encoding::IMAGE_PNG`: id 16, no schema).
pub fn encoding_const_image_png() -> (r: Encoding)
    ensures
        r@ == (EncodingView { id: 16, schema: None }),
{
    encoding_preset(16)
}

/// Predefined `IMAGE_JPEG` encoding (zenoh's `Encoding::IMAGE_JPEG`: id 17, no schema).
pub fn encoding_const_image_jpeg() -> (r: Encoding)
    ensures
        r@ == (EncodingView { id: 17, schema: None }),
{
    encoding_preset(17)
}

/// Predefined `IMAGE_GIF` encoding (zenoh's `Encoding::IMAGE_GIF`: id 18, no schema).
pub fn encoding_const_image_gif() -> (r: Encoding)
    ensures
        r@ == (EncodingView { id: 18, schema: None }),
{
    encoding_preset(18)
}

/// Predefined `IMAGE_BMP` encoding (zenoh's `Encoding::IMAGE_BMP`: id 19, no schema).
pub fn encoding_const_image_bmp() -> (r: Encoding)
    ensures
        r@ == (EncodingView { id: 19, schema: None }),
{
    encoding_preset(19)
}

/// Predefined `IMAGE_WEBP` encoding (zenoh's `Encoding::IMAGE_WEBP`: id 20, no schema).
pub fn encoding_const_image_webp() -> (r: Encoding)
    ensures
        r@ == (EncodingView { id: 20, schema: None }),
{
    encoding_preset(20)
}

/// Predefined `APPLICATION_XML` encoding (zenoh's `Encoding::APPLICATION_XML`: id 21, no schema).
pub fn encoding_const_application_xml() -> (r: Encoding)
    ensures
        r@ == (EncodingView { id: 21, schema: None }),
{
    encoding_preset(21)
}

/// Predefined `APPLICATION_X_WWW_FORM_URLENCODED` encoding (zenoh's `Encoding::APPLICATION_X_WWW_FORM_URLENCODED`: id 22, no schema).
pub fn encoding_const_application_x_www_form_urlencoded() -> (r: Encoding)
    ensures
        r@ == (EncodingView { id: 22, schema: None }),
{
    encoding_preset(22)
}

/// Predefined `TEXT_HTML` encoding (zenoh's `Encoding::TEXT_HTML`: id 23, no schema).
pub fn encoding_const_text_html() -> (r: Encoding)
    ensures
        r@ == (EncodingView { id: 23, schema: None }),
{
    encoding_preset(23)
}

/// Predefined `TEXT_XML` encoding (zenoh's `Encoding::TEXT_XML`: id 24, no schema).
pub fn encoding_const_text_xml() -> (r: Encoding)
    ensures
        r@ == (EncodingView { id: 24, schema: None }),
{
    encoding_preset(24)
}

/// Predefined `TEXT_CSS` encoding (zenoh's `Encoding::TEXT_CSS`: id 25, no schema).
pub fn encoding_const_text_css() -> (r: Encoding)
    ensures
        r@ == (EncodingView { id: 25, schema: None }),
{
    encoding_preset(25)
}

/// Predefined `TEXT_JAVASCRIPT` encoding (zenoh's `Encoding::TEXT_JAVASCRIPT`: id 26, no schema).
pub fn encoding_const_text_javascript() -> (r: Encoding)
    ensures
        r@ == (EncodingView { id: 26, schema: None }),
{
    encoding_preset(26)
}

/// Predefined `TEXT_MARKDOWN` encoding (zenoh's `Encoding::TEXT_MARKDOWN`: id 27, no schema).
pub fn encoding_const_text_markdown() -> (r: Encoding)
    ensures
        r@ == (EncodingView { id: 27, schema: None }),
{
    encoding_preset(27)
}

/// Predefined `TEXT_CSV` encoding (zenoh's `Encoding::TEXT_CSV`: id 28, no schema).
pub fn encoding_const_text_csv() -> (r: Encoding)
    ensures
        r@ == (EncodingView { id: 28, schema: None }),
{
    encoding_preset(28)
}

/// Predefined `APPLICATION_SQL` encoding (zenoh's `Encoding::APPLICATION_SQL`: id 29, no schema).
pub fn encoding_const_application_sql() -> (r: Encoding)
    ensures
        r@ == (EncodingView { id: 29, schema: None }),
{
    encoding_preset(29)
}

/// Predefined `APPLICATION_COAP_PAYLOAD` encoding (zenoh's `Encoding::APPLICATION_COAP_PAYLOAD`: id 30, no schema).
pub fn encoding_const_application_coap_payload() -> (r: Encoding)
    ensures
        r@ == (EncodingView { id: 30, schema: None }),
{
    encoding_preset(30)
}

/// Predefined `APPLICATION_JSON_PATCH_JSON` encoding (zenoh's `Encoding::APPLICATION_JSON_PATCH_JSON`: id 31, no schema).
pub fn encoding_const_application_json_patch_json() -> (r: Encoding)
    ensures
        r@ == (EncodingView { id: 31, schema: None }),
{
    encoding_preset(31)
}

/// Predefined `APPLICATION_JSON_SEQ` encoding (zenoh's `Encoding::APPLICATION_JSON_SEQ`: id 32, no schema).
pub fn encoding_const_application_json_seq() -> (r: Encoding)
    ensures
        r@ == (EncodingView { id: 32, schema: None }),
{
    encoding_preset(32)
}

/// Predefined `APPLICATION_JSONPATH` encoding (zenoh's `Encoding::APPLICATION_JSONPATH`: id 33, no schema).
pub fn encoding_const_application_jsonpath() -> (r: Encoding)
    ensures
        r@ == (EncodingView { id: 33, schema: None }),
{
    encoding_preset(33)
}

/// Predefined `APPLICATION_JWT` encoding (zenoh's `Encoding::APPLICATION_JWT`: id 34, no schema).
pub fn encoding_const_application_jwt() -> (r: Encoding)
    ensures
        r@ == (EncodingView { id: 34, schema: None }),
{
    encoding_preset(34)
}

/// Predefined `APPLICATION_MP4` encoding (zenoh's `Encoding::APPLICATION_MP4`: id 35, no schema).
pub fn encoding_const_application_mp4() -> (r: Encoding)
    ensures
        r@ == (EncodingView { id: 35, schema: None }),
{
    encoding_preset(35)
}

/// Predefined `APPLICATION_SOAP_XML` encoding (zenoh's `Encoding::APPLICATION_SOAP_XML`: id 36, no schema).
pub fn encoding_const_application_soap_xml() -> (r: Encoding)
    ensures
        r@ == (EncodingView { id: 36, schema: None }),
{
    encoding_preset(36)
}

/// Predefined `APPLICATION_YANG` encoding (zenoh's `Encoding::APPLICATION_YANG`: id 37, no schema).
pub fn encoding_const_application_yang() -> (r: Encoding)
    ensures
        r@ == (EncodingView { id: 37, schema: None }),
{
    encoding_preset(37)
}

/// Predefined `AUDIO_AAC` encoding (zenoh's `Encoding::AUDIO_AAC`: id 38, no schema).
pub fn encoding_const_audio_aac() -> (r: Encoding)
    ensures
        r@ == (EncodingView { id: 38, schema: None }),
{
    encoding_preset(38)
}

/// Predefined `AUDIO_FLAC` encoding (zenoh's `Encoding::AUDIO_FLAC`: id 39, no schema).
pub fn encoding_const_audio_flac() -> (r: Encoding)
    ensures
        r@ == (EncodingView { id: 39, schema: None }),
{
    encoding_preset(39)
}

/// Predefined `AUDIO_MP4` encoding (zenoh's `Encoding::AUDIO_MP4`: id 40, no schema).
pub fn encoding_const_audio_mp4() -> (r: Encoding)
    ensures
        r@ == (EncodingView { id: 40, schema: None }),
{
    encoding_preset(40)
}

/// Predefined `AUDIO_OGG` encoding (zenoh's `Encoding::AUDIO_OGG`: id 41, no schema).
pub fn encoding_const_audio_ogg() -> (r: Encoding)
    ensures
        r@ == (EncodingView { id: 41, schema: None }),
{
    encoding_preset(41)
}

/// Predefined `AUDIO_VORBIS` encoding (zenoh's `Encoding::AUDIO_VORBIS`: id 42, no schema).
pub fn encoding_const_audio_vorbis() -> (r: Encoding)
    ensures
        r@ == (EncodingView { id: 42, schema: None }),
{
    encoding_preset(42)
}

/// Predefined `VIDEO_H261` encoding (zenoh's `Encoding::VIDEO_H261`: id 43, no schema).
pub fn encoding_const_video_h261() -> (r: Encoding)
    ensures
        r@ == (EncodingView { id: 43, schema: None }),
{
    encoding_preset(43)
}

/// Predefined `VIDEO_H263` encoding (zenoh's `Encoding::VIDEO_H263`: id 44, no schema).
pub fn encoding_const_video_h263() -> (r: Encoding)
    ensures
        r@ == (EncodingView { id: 44, schema: None }),
{
    encoding_preset(44)
}

/// Predefined `VIDEO_H264` encoding (zenoh's `Encoding::VIDEO_H264`: id 45, no schema).
pub fn encoding_const_video_h264() -> (r: Encoding)
    ensures
        r@ == (EncodingView { id: 45, schema: None }),
{
    encoding_preset(45)
}

/// Predefined `VIDEO_H265` encoding (zenoh's `Encoding::VIDEO_H265`: id 46, no schema).
pub fn encoding_const_video_h265() -> (r: Encoding)
    ensures
        r@ == (EncodingView { id: 46, schema: None }),
{
    encoding_preset(46)
}

/// Predefined `VIDEO_H266` encoding (zenoh's `Encoding::VIDEO_H266`: id 47, no schema).
pub fn encoding_const_video_h266() -> (r: Encoding)
    ensures
        r@ == (EncodingView { id: 47, schema: None }),
{
    encoding_preset(47)
}

/// Predefined `VIDEO_MP4` encoding (zenoh's `Encoding::VIDEO_MP4`: id 48, no schema).
pub fn encoding_const_video_mp4() -> (r: Encoding)
    ensures
        r@ == (EncodingView { id: 48, schema: None }),
{
    encoding_preset(48)
}

/// Predefined `VIDEO_OGG` encoding (zenoh's `Encoding::VIDEO_OGG`: id 49, no schema).
pub fn encoding_const_video_ogg() -> (r: Encoding)
    ensures
        r@ == (EncodingView { id: 49, schema: None }),
{
    encoding_preset(49)
}

/// Predefined `VIDEO_RAW` encoding (zenoh's `Encoding::VIDEO_RAW`: id 50, no schema).
pub fn encoding_const_video_raw() -> (r: Encoding)
    ensures
        r@ == (EncodingView { id: 50, schema: None }),
{
    encoding_preset(50)
}

/// Predefined `VIDEO_VP8` encoding (zenoh's `Encoding::VIDEO_VP8`: id 51, no schema).
pub fn encoding_const_video_vp8() -> (r: Encoding)
    ensures
        r@ == (EncodingView { id: 51, schema: None }),
{
    encoding_preset(51)
}

/// Predefined `VIDEO_VP9` encoding (zenoh's `Encoding::VIDEO_VP9`: id 52, no schema).
pub fn encoding_const_video_vp9() -> (r: Encoding)
    ensures
        r@ == (EncodingView { id: 52, schema: None }),
{
    encoding_preset(52)
}
/// Predefined `ZENOH_BYTES` encoding of the thin surface.
pub fn z_encoding_zenoh_bytes() -> (r: ZEncoding)
    ensures
        r@ == (EncodingView { id: 0, schema: None }),
{
    encoding_const_zenoh_bytes()
}

/// Predefined `ZENOH_STRING` encoding of the thin surface.
pub fn z_encoding_zenoh_string() -> (r: ZEncoding)
    ensures
        r@ == (EncodingView { id: 1, schema: None }),
{
    encoding_const_zenoh_string()
}

/// Predefined `ZENOH_SERIALIZED` encoding of the thin surface.
pub fn z_encoding_zenoh_serialized() -> (r: ZEncoding)
    ensures
        r@ == (EncodingView { id: 2, schema: None }),
{
    encoding_const_zenoh_serialized()
}

/// Predefined `APPLICATION_OCTET_STREAM` encoding of the thin surface.
pub fn z_encoding_application_octet_stream() -> (r: ZEncoding)
    ensures
        r@ == (EncodingView { id: 3, schema: None }),
{
    encoding_const_application_octet_stream()
}

/// Predefined `TEXT_PLAIN` encoding of the thin surface.
pub fn z_encoding_text_plain() -> (r: ZEncoding)
    ensures
        r@ == (EncodingView { id: 4, schema: None }),
{
    encoding_const_text_plain()
}

/// Predefined `APPLICATION_JSON` encoding of the thin surface.
pub fn z_encoding_application_json() -> (r: ZEncoding)
    ensures
        r@ == (EncodingView { id: 5, schema: None }),
{
    encoding_const_application_json()
}

/// Predefined `TEXT_JSON` encoding of the thin surface.
pub fn z_encoding_text_json() -> (r: ZEncoding)
    ensures
        r@ == (EncodingView { id: 6, schema: None }),
{
    encoding_const_text_json()
}

/// Predefined `APPLICATION_CDR` encoding of the thin surface.
pub fn z_encoding_application_cdr() -> (r: ZEncoding)
    ensures
        r@ == (EncodingView { id: 7, schema: None }),
{
    encoding_const_application_cdr()
}

/// Predefined `APPLICATION_CBOR` encoding of the thin surface.
pub fn z_encoding_application_cbor() -> (r: ZEncoding)
    ensures
        r@ == (EncodingView { id: 8, schema: None }),
{
    encoding_const_application_cbor()
}

/// Predefined `APPLICATION_YAML` encoding of the thin surface.
pub fn z_encoding_application_yaml() -> (r: ZEncoding)
    ensures
        r@ == (EncodingView { id: 9, schema: None }),
{
    encoding_const_application_yaml()
}

/// Predefined `TEXT_YAML` encoding of the thin surface.
pub fn z_encoding_text_yaml() -> (r: ZEncoding)
    ensures
        r@ == (EncodingView { id: 10, schema: None }),
{
    encoding_const_text_yaml()
}

/// Predefined `TEXT_JSON5` encoding of the thin surface.
pub fn z_encoding_text_json5() -> (r: ZEncoding)
    ensures
        r@ == (EncodingView { id: 11, schema: None }),
{
    encoding_const_text_json5()
}

/// Predefined `APPLICATION_PYTHON_SERIALIZED_OBJECT` encoding of the thin surface.
pub fn z_encoding_application_python_serialized_object() -> (r: ZEncoding)
    ensures
        r@ == (EncodingView { id: 12, schema: None }),
{
    encoding_const_application_python_serialized_object()
}

/// Predefined `APPLICATION_PROTOBUF` encoding of the thin surface.
pub fn z_encoding_application_protobuf() -> (r: ZEncoding)
    ensures
        r@ == (EncodingView { id: 13, schema: None }),
{
    encoding_const_application_protobuf()
}

/// Predefined `APPLICATION_JAVA_SERIALIZED_OBJECT` encoding of the thin surface.
pub fn z_encoding_application_java_serialized_object() -> (r: ZEncoding)
    ensures
        r@ == (EncodingView { id: 14, schema: None }),
{
    encoding_const_application_java_serialized_object()
}

/// Predefined `APPLICATION_OPENMETRICS_TEXT` encoding of the thin surface.
pub fn z_encoding_application_openmetrics_text() -> (r: ZEncoding)
    ensures
        r@ == (EncodingView { id: 15, schema: None }),
{
    encoding_const_application_openmetrics_text()
}

/// Predefined `IMAGE_PNG` encoding of the thin surface.
pub fn z_encoding_image_png() -> (r: ZEncoding)
    ensures
        r@ == (EncodingView { id: 16, schema: None }),
{
    encoding_const_image_png()
}

/// Predefined `IMAGE_JPEG` encoding of the thin surface.
pub fn z_encoding_image_jpeg() -> (r: ZEncoding)
    ensures
        r@ == (EncodingView { id: 17, schema: None }),
{
    encoding_const_image_jpeg()
}

/// Predefined `IMAGE_GIF` encoding of the thin surface.
pub fn z_encoding_image_gif() -> (r: ZEncoding)
    ensures
        r@ == (EncodingView { id: 18, schema: None }),
{
    encoding_const_image_gif()
}

/// Predefined `IMAGE_BMP` encoding of the thin surface.
pub fn z_encoding_image_bmp() -> (r: ZEncoding)
    ensures
        r@ == (EncodingView { id: 19, schema: None }),
{
    encoding_const_image_bmp()
}

/// Predefined `IMAGE_WEBP` encoding of the thin surface.
pub fn z_encoding_image_webp() -> (r: ZEncoding)
    ensures
        r@ == (EncodingView { id: 20, schema: None }),
{
    encoding_const_image_webp()
}

/// Predefined `APPLICATION_XML` encoding of the thin surface.
pub fn z_encoding_application_xml() -> (r: ZEncoding)
    ensures
        r@ == (EncodingView { id: 21, schema: None }),
{
    encoding_const_application_xml()
}

/// Predefined `APPLICATION_X_WWW_FORM_URLENCODED` encoding of the thin surface.
pub fn z_encoding_application_x_www_form_urlencoded() -> (r: ZEncoding)
    ensures
        r@ == (EncodingView { id: 22, schema: None }),
{
    encoding_const_application_x_www_form_urlencoded()
}

/// Predefined `TEXT_HTML` encoding of the thin surface.
pub fn z_encoding_text_html() -> (r: ZEncoding)
    ensures
        r@ == (EncodingView { id: 23, schema: None }),
{
    encoding_const_text_html()
}

/// Predefined `TEXT_XML` encoding of the thin surface.
pub fn z_encoding_text_xml() -> (r: ZEncoding)
    ensures
        r@ == (EncodingView { id: 24, schema: None }),
{
    encoding_const_text_xml()
}

/// Predefined `TEXT_CSS` encoding of the thin surface.
pub fn z_encoding_text_css() -> (r: ZEncoding)
    ensures
        r@ == (EncodingView { id: 25, schema: None }),
{
    encoding_const_text_css()
}

/// Predefined `TEXT_JAVASCRIPT` encoding of the thin surface.
pub fn z_encoding_text_javascript() -> (r: ZEncoding)
    ensures
        r@ == (EncodingView { id: 26, schema: None }),
{
    encoding_const_text_javascript()
}

/// Predefined `TEXT_MARKDOWN` encoding of the thin surface.
pub fn z_encoding_text_markdown() -> (r: ZEncoding)
    ensures
        r@ == (EncodingView { id: 27, schema: None }),
{
    encoding_const_text_markdown()
}

/// Predefined `TEXT_CSV` encoding of the thin surface.
pub fn z_encoding_text_csv() -> (r: ZEncoding)
    ensures
        r@ == (EncodingView { id: 28, schema: None }),
{
    encoding_const_text_csv()
}

/// Predefined `APPLICATION_SQL` encoding of the thin surface.
pub fn z_encoding_application_sql() -> (r: ZEncoding)
    ensures
        r@ == (EncodingView { id: 29, schema: None }),
{
    encoding_const_application_sql()
}

/// Predefined `APPLICATION_COAP_PAYLOAD` encoding of the thin surface.
pub fn z_encoding_application_coap_payload() -> (r: ZEncoding)
    ensures
        r@ == (EncodingView { id: 30, schema: None }),
{
    encoding_const_application_coap_payload()
}

/// Predefined `APPLICATION_JSON_PATCH_JSON` encoding of the thin surface.
pub fn z_encoding_application_json_patch_json() -> (r: ZEncoding)
    ensures
        r@ == (EncodingView { id: 31, schema: None }),
{
    encoding_const_application_json_patch_json()
}

/// Predefined `APPLICATION_JSON_SEQ` encoding of the thin surface.
pub fn z_encoding_application_json_seq() -> (r: ZEncoding)
    ensures
        r@ == (EncodingView { id: 32, schema: None }),
{
    encoding_const_application_json_seq()
}

/// Predefined `APPLICATION_JSONPATH` encoding of the thin surface.
pub fn z_encoding_application_jsonpath() -> (r: ZEncoding)
    ensures
        r@ == (EncodingView { id: 33, schema: None }),
{
    encoding_const_application_jsonpath()
}

/// Predefined `APPLICATION_JWT` encoding of the thin surface.
pub fn z_encoding_application_jwt() -> (r: ZEncoding)
    ensures
        r@ == (EncodingView { id: 34, schema: None }),
{
    encoding_const_application_jwt()
}

/// Predefined `APPLICATION_MP4` encoding of the thin surface.
pub fn z_encoding_application_mp4() -> (r: ZEncoding)
    ensures
        r@ == (EncodingView { id: 35, schema: None }),
{
    encoding_const_application_mp4()
}

/// Predefined `APPLICATION_SOAP_XML` encoding of the thin surface.
pub fn z_encoding_application_soap_xml() -> (r: ZEncoding)
    ensures
        r@ == (EncodingView { id: 36, schema: None }),
{
    encoding_const_application_soap_xml()
}

/// Predefined `APPLICATION_YANG` encoding of the thin surface.
pub fn z_encoding_application_yang() -> (r: ZEncoding)
    ensures
        r@ == (EncodingView { id: 37, schema: None }),
{
    encoding_const_application_yang()
}

/// Predefined `AUDIO_AAC` encoding of the thin surface.
pub fn z_encoding_audio_aac() -> (r: ZEncoding)
    ensures
        r@ == (EncodingView { id: 38, schema: None }),
{
    encoding_const_audio_aac()
}

/// Predefined `AUDIO_FLAC` encoding of the thin surface.
pub fn z_encoding_audio_flac() -> (r: ZEncoding)
    ensures
        r@ == (EncodingView { id: 39, schema: None }),
{
    encoding_const_audio_flac()
}

/// Predefined `AUDIO_MP4` encoding of the thin surface.
pub fn z_encoding_audio_mp4() -> (r: ZEncoding)
    ensures
        r@ == (EncodingView { id: 40, schema: None }),
{
    encoding_const_audio_mp4()
}

/// Predefined `AUDIO_OGG` encoding of the thin surface.
pub fn z_encoding_audio_ogg() -> (r: ZEncoding)
    ensures
        r@ == (EncodingView { id: 41, schema: None }),
{
    encoding_const_audio_ogg()
}

/// Predefined `AUDIO_VORBIS` encoding of the thin surface.
pub fn z_encoding_audio_vorbis() -> (r: ZEncoding)
    ensures
        r@ == (EncodingView { id: 42, schema: None }),
{
    encoding_const_audio_vorbis()
}

/// Predefined `VIDEO_H261` encoding of the thin surface.
pub fn z_encoding_video_h261() -> (r: ZEncoding)
    ensures
        r@ == (EncodingView { id: 43, schema: None }),
{
    encoding_const_video_h261()
}

/// Predefined `VIDEO_H263` encoding of the thin surface.
pub fn z_encoding_video_h263() -> (r: ZEncoding)
    ensures
        r@ == (EncodingView { id: 44, schema: None }),
{
    encoding_const_video_h263()
}

/// Predefined `VIDEO_H264` encoding of the thin surface.
pub fn z_encoding_video_h264() -> (r: ZEncoding)
    ensures
        r@ == (EncodingView { id: 45, schema: None }),
{
    encoding_const_video_h264()
}

/// Predefined `VIDEO_H265` encoding of the thin surface.
pub fn z_encoding_video_h265() -> (r: ZEncoding)
    ensures
        r@ == (EncodingView { id: 46, schema: None }),
{
    encoding_const_video_h265()
}

/// Predefined `VIDEO_H266` encoding of the thin surface.
pub fn z_encoding_video_h266() -> (r: ZEncoding)
    ensures
        r@ == (EncodingView { id: 47, schema: None }),
{
    encoding_const_video_h266()
}

/// Predefined `VIDEO_MP4` encoding of the thin surface.
pub fn z_encoding_video_mp4() -> (r: ZEncoding)
    ensures
        r@ == (EncodingView { id: 48, schema: None }),
{
    encoding_const_video_mp4()
}

/// Predefined `VIDEO_OGG` encoding of the thin surface.
pub fn z_encoding_video_ogg() -> (r: ZEncoding)
    ensures
        r@ == (EncodingView { id: 49, schema: None }),
{
    encoding_const_video_ogg()
}

/// Predefined `VIDEO_RAW` encoding of the thin surface.
pub fn z_encoding_video_raw() -> (r: ZEncoding)
    ensures
        r@ == (EncodingView { id: 50, schema: None }),
{
    encoding_const_video_raw()
}

/// Predefined `VIDEO_VP8` encoding of the thin surface.
pub fn z_encoding_video_vp8() -> (r: ZEncoding)
    ensures
        r@ == (EncodingView { id: 51, schema: None }),
{
    encoding_const_video_vp8()
}

/// Predefined `VIDEO_VP9` encoding of the thin surface.
pub fn z_encoding_video_vp9() -> (r: ZEncoding)
    ensures
        r@ == (EncodingView { id: 52, schema: None }),
{
    encoding_const_video_vp9()
}
} // verus!
