//! Key expressions: validation, canonization, set relations, composition.
//!
//! A key expression is kept as its canonical text. Which texts are valid key
//! expressions, how a text is canonized, and how the key sets of two
//! expressions relate are zenoh's rules; they are obtained from zenoh and
//! named here so that the contracts can speak of them.
use vstd::prelude::*;
use crate::error::Error;

verus! {

/// Whether zenoh accepts `text` as a canonical key expression
/// (`<&zenoh::key_expr::keyexpr>::try_from(&str)` succeeds).
pub uninterp spec fn keyexpr_is_valid(text: Seq<char>) -> bool;

/// The text that zenoh's `Canonize::canonize` turns `text` into.
pub uninterp spec fn keyexpr_canonize(text: Seq<char>) -> Seq<char>;

/// Whether zenoh's `keyexpr::intersects` holds of two valid key expressions.
pub uninterp spec fn keyexpr_intersects_spec(a: Seq<char>, b: Seq<char>) -> bool;

/// Whether zenoh's `keyexpr::includes` holds of two valid key expressions.
pub uninterp spec fn keyexpr_includes_spec(a: Seq<char>, b: Seq<char>) -> bool;

/// A validated key expression, held as its canonical text.
#[derive(Debug, PartialEq, Eq)]
pub struct KeyExpr {
    text: String,
}

/// The native key-expression handle of the thin surface; the same type.
pub type ZKeyExpr = KeyExpr;

impl View for KeyExpr {
    type V = Seq<char>;

    closed spec fn view(&self) -> Seq<char> {
        self.text@
    }
}

impl Clone for KeyExpr {
    fn clone(&self) -> (r: Self)
        ensures
            r@ == self@,
    {
        proof { use_type_invariant(self); }
        KeyExpr { text: self.text.clone() }
    }
}

impl KeyExpr {
    #[verifier::type_invariant]
    spec fn wf(self) -> bool {
        keyexpr_is_valid(self.text@)
    }
}

/// The relationship between the sets of keys matched by two key expressions.
#[derive(Debug, Clone, Copy, PartialEq, Eq, Structural)]
pub enum SetIntersectionLevel {
    /// The expressions cannot match a common key.
    Disjoint,
    /// The expressions can match a common key, but neither includes the other.
    Intersects,
    /// The first expression matches every key matched by the second.
    Includes,
    /// The expressions match the same set of keys.
    Equals,
}

/// The relation zenoh's `keyexpr::relation_to` reports, as its source defines
/// it from `intersects`, textual equality and `includes`.
pub open spec fn keyexpr_relation_spec(a: Seq<char>, b: Seq<char>) -> SetIntersectionLevel {
    if keyexpr_intersects_spec(a, b) {
        if a == b {
            SetIntersectionLevel::Equals
        } else if keyexpr_includes_spec(a, b) {
            SetIntersectionLevel::Includes
        } else {
            SetIntersectionLevel::Intersects
        }
    } else {
        SetIntersectionLevel::Disjoint
    }
}

/// Whether `s` ends with `c`.
pub open spec fn ends_with_char(s: Seq<char>, c: char) -> bool {
    s.len() > 0 && s.last() == c
}

/// Whether `s` starts with `c`.
pub open spec fn starts_with_char(s: Seq<char>, c: char) -> bool {
    s.len() > 0 && s[0] == c
}

/// Whether zenoh's `KeyExpr::concat` of `a` and `b` succeeds: it refuses to
/// glue a trailing `*` to a leading `*`, and the result must be valid.
pub open spec fn keyexpr_concat_ok(a: Seq<char>, b: Seq<char>) -> bool {
    !(ends_with_char(a, '*') && starts_with_char(b, '*')) && keyexpr_is_valid(a + b)
}

/// The text zenoh's `keyexpr::join` builds before canonizing it: both sides
/// with a `/` in between.
pub open spec fn keyexpr_join_text(a: Seq<char>, b: Seq<char>) -> Seq<char> {
    a + seq!['/'] + b
}

/// zenoh's `OwnedKeyExpr::try_from(String)`: accepts the text unchanged when
/// it is a valid canonical key expression.
#[verifier::external_body]
fn base_keyexpr_try_from(s: String) -> (r: Result<String, Error>)
    ensures
        r is Ok <==> keyexpr_is_valid(s@),
        r matches Ok(t) ==> t@ == s@,
{
    match zenoh::key_expr::OwnedKeyExpr::try_from(s) {
        Ok(k) => Ok(k.as_str().to_string()),
        Err(e) => Err(Error { message: e.to_string() }),
    }
}

/// Whether `t` holds the pair `$*` at position `i`.
pub open spec fn wild_pair_at(t: Seq<char>, i: int) -> bool {
    0 <= i && i + 1 < t.len() && t[i] == '$' && t[i + 1] == '*'
}

/// Whether zenoh's canonizer (`canonize` in zenoh-keyexpr's `canon.rs`)
/// reads past the end of `t`, which panics. It happens exactly when the
/// text ends, but for at most one ASCII character, with a maximal run of
/// `k` pairs `$*` where `k` leaves 2 when divided by 3, and the run does not
/// start its chunk: the canonizer's in-chunk scan then steps through the run
/// three pairs at a time and slices four bytes past a `$*$*` that has fewer
/// than two bytes after it.
pub open spec fn canonize_overruns(t: Seq<char>) -> bool {
    exists|p: int, k: int|
        #![trigger wild_pair_at(t, p), wild_pair_at(t, p + 2 * k - 2)]
        0 < p && 2 <= k && k % 3 == 2 && p + 2 * k <= t.len() && t.len() - (p + 2 * k) <= 1
            && (forall|j: int| 0 <= j < k ==> #[trigger] wild_pair_at(t, p + 2 * j))
            && t[p - 1] != '/'
            && !wild_pair_at(t, p - 2)
            && (p + 2 * k < t.len() ==> (t[p + 2 * k] as u32) < 128)
}

/// zenoh's `KeyExpr::autocanonize(String)`: canonizes the text, then accepts
/// it when the result is valid (its source: `canonize` followed by `new`).
#[verifier::external_body]
fn base_keyexpr_autocanonize(s: String) -> (r: Result<String, Error>)
    requires
        !canonize_overruns(s@),
    ensures
        r is Ok <==> keyexpr_is_valid(keyexpr_canonize(s@)),
        r matches Ok(t) ==> t@ == keyexpr_canonize(s@),
{
    match zenoh::key_expr::KeyExpr::autocanonize(s) {
        Ok(k) => Ok(k.as_str().to_string()),
        Err(e) => Err(Error { message: e.to_string() }),
    }
}

/// zenoh's `keyexpr::intersects` on two valid key expressions. Its doc
/// defines it as a set relation: some key belongs to the sets of keys both
/// expressions define. Such a relation is symmetric, and an expression (which
/// always defines at least one key) intersects itself.
#[verifier::external_body]
fn base_keyexpr_intersects(a: &str, b: &str) -> (r: bool)
    requires
        keyexpr_is_valid(a@),
        keyexpr_is_valid(b@),
    ensures
        r == keyexpr_intersects_spec(a@, b@),
        r == keyexpr_intersects_spec(b@, a@),
        a@ == b@ ==> r,
{
    match (zenoh::key_expr::keyexpr::new(a), zenoh::key_expr::keyexpr::new(b)) {
        (Ok(a), Ok(b)) => a.intersects(b),
        _ => false,
    }
}

/// zenoh's `keyexpr::includes` on two valid key expressions. Its doc
/// defines it as set inclusion: the set of keys `a` defines contains every
/// key of the set `b` defines. Inclusion is reflexive and transitive, and as
/// `b` defines at least one key, it implies that the expressions intersect.
#[verifier::external_body]
fn base_keyexpr_includes(a: &str, b: &str) -> (r: bool)
    requires
        keyexpr_is_valid(a@),
        keyexpr_is_valid(b@),
    ensures
        r == keyexpr_includes_spec(a@, b@),
        a@ == b@ ==> r,
        r ==> keyexpr_intersects_spec(a@, b@),
        r ==> forall|c: Seq<char>|
            keyexpr_is_valid(c) && #[trigger] keyexpr_includes_spec(b@, c) ==> keyexpr_includes_spec(a@, c),
{
    match (zenoh::key_expr::keyexpr::new(a), zenoh::key_expr::keyexpr::new(b)) {
        (Ok(a), Ok(b)) => a.includes(b),
        _ => false,
    }
}

/// zenoh's `keyexpr::relation_to` on two valid key expressions; its source
/// derives the level from `intersects`, equality and `includes`.
#[verifier::external_body]
fn base_keyexpr_relation_to(a: &str, b: &str) -> (r: SetIntersectionLevel)
    requires
        keyexpr_is_valid(a@),
        keyexpr_is_valid(b@),
    ensures
        r == keyexpr_relation_spec(a@, b@),
{
    match (zenoh::key_expr::keyexpr::new(a), zenoh::key_expr::keyexpr::new(b)) {
        (Ok(a), Ok(b)) => match a.relation_to(b) {
            zenoh::key_expr::SetIntersectionLevel::Disjoint => SetIntersectionLevel::Disjoint,
            zenoh::key_expr::SetIntersectionLevel::Intersects => SetIntersectionLevel::Intersects,
            zenoh::key_expr::SetIntersectionLevel::Includes => SetIntersectionLevel::Includes,
            zenoh::key_expr::SetIntersectionLevel::Equals => SetIntersectionLevel::Equals,
        },
        _ => SetIntersectionLevel::Disjoint,
    }
}

/// zenoh's `KeyExpr::join`: its source autocanonizes `a`, `/` and `b`
/// put together.
#[verifier::external_body]
fn base_keyexpr_join(a: &str, b: &str) -> (r: Result<String, Error>)
    requires
        keyexpr_is_valid(a@),
        !canonize_overruns(keyexpr_join_text(a@, b@)),
    ensures
        r is Ok <==> keyexpr_is_valid(keyexpr_canonize(keyexpr_join_text(a@, b@))),
        r matches Ok(t) ==> t@ == keyexpr_canonize(keyexpr_join_text(a@, b@)),
{
    match zenoh::key_expr::KeyExpr::try_from(a).and_then(|k| k.join(b)) {
        Ok(k) => Ok(k.as_str().to_string()),
        Err(e) => Err(Error { message: e.to_string() }),
    }
}

/// zenoh's `KeyExpr::concat`: its source refuses a trailing `*` followed by a
/// leading `*`, and otherwise validates the plain concatenation.
#[verifier::external_body]
fn base_keyexpr_concat(a: &str, b: &str) -> (r: Result<String, Error>)
    requires
        keyexpr_is_valid(a@),
    ensures
        r is Ok <==> keyexpr_concat_ok(a@, b@),
        r matches Ok(t) ==> t@ == a@ + b@,
{
    match zenoh::key_expr::KeyExpr::try_from(a).and_then(|k| k.concat(b)) {
        Ok(k) => Ok(k.as_str().to_string()),
        Err(e) => Err(Error { message: e.to_string() }),
    }
}

/// Validate text as a canonical Zenoh key expression.
///
/// Use [`keyexpr_new_autocanonize`] to canonicalize the text before validation.
pub fn keyexpr_new_try_from(s: String) -> (r: Result<KeyExpr, Error>)
    ensures
        r is Ok <==> keyexpr_is_valid(s@),
        r matches Ok(k) ==> k@ == s@,
{
    match base_keyexpr_try_from(s) {
        Ok(text) => Ok(KeyExpr { text }),
        Err(e) => Err(e),
    }
}

/// Create an independent copy of a key expression.
pub fn keyexpr_new_clone(ke: &KeyExpr) -> (r: KeyExpr)
    ensures
        r@ == ke@,
{
    proof { use_type_invariant(ke); }
    KeyExpr { text: ke.text.clone() }
}

/// Return the canonical text of a key expression as an owned copy.
///
/// Use [`keyexpr_as_str`] to read the text without copying it.
pub fn keyexpr_to_string(ke: &KeyExpr) -> (r: String)
    ensures
        r@ == ke@,
        keyexpr_is_valid(r@),
{
    proof { use_type_invariant(ke); }
    ke.text.clone()
}

/// Borrow the canonical text of a key expression.
pub fn keyexpr_as_str(ke: &KeyExpr) -> (r: &str)
    ensures
        r@ == ke@,
        keyexpr_is_valid(r@),
{
    proof { use_type_invariant(ke); }
    ke.text.as_str()
}

/// Convert text to canonical key-expression form and validate the result.
///
/// Unlike [`keyexpr_new_try_from`], this accepts valid non-canonical forms
/// such as redundant wildcards and normalizes them. Texts on which zenoh's
/// canonizer panics ([`canonize_overruns`]) are outside its domain.
pub fn keyexpr_new_autocanonize(s: String) -> (r: Result<KeyExpr, Error>)
    requires
        !canonize_overruns(s@),
    ensures
        r is Ok <==> keyexpr_is_valid(keyexpr_canonize(s@)),
        r matches Ok(k) ==> k@ == keyexpr_canonize(s@),
{
    match base_keyexpr_autocanonize(s) {
        Ok(text) => Ok(KeyExpr { text }),
        Err(e) => Err(e),
    }
}

/// Return whether the two key expressions can match at least one common key.
/// The relation is symmetric, and an expression intersects itself.
pub fn keyexpr_intersects(a: &KeyExpr, b: &KeyExpr) -> (r: bool)
    ensures
        r == keyexpr_intersects_spec(a@, b@),
        r == keyexpr_intersects_spec(b@, a@),
        a@ == b@ ==> r,
{
    proof {
        use_type_invariant(a);
        use_type_invariant(b);
    }
    base_keyexpr_intersects(a.text.as_str(), b.text.as_str())
}

/// Return whether every key matched by `b` is also matched by `a`. An
/// expression includes itself, inclusion is transitive, and it implies that
/// the expressions intersect.
pub fn keyexpr_includes(a: &KeyExpr, b: &KeyExpr) -> (r: bool)
    ensures
        r == keyexpr_includes_spec(a@, b@),
        a@ == b@ ==> r,
        r ==> keyexpr_intersects_spec(a@, b@),
        r ==> forall|c: Seq<char>|
            keyexpr_is_valid(c) && #[trigger] keyexpr_includes_spec(b@, c) ==> keyexpr_includes_spec(a@, c),
{
    proof {
        use_type_invariant(a);
        use_type_invariant(b);
    }
    base_keyexpr_includes(a.text.as_str(), b.text.as_str())
}

/// Describe how the sets of keys matched by two expressions relate.
pub fn keyexpr_relation_to(a: &KeyExpr, b: &KeyExpr) -> (r: SetIntersectionLevel)
    ensures
        r == keyexpr_relation_spec(a@, b@),
{
    proof {
        use_type_invariant(a);
        use_type_invariant(b);
    }
    base_keyexpr_relation_to(a.text.as_str(), b.text.as_str())
}

/// Join a key expression and a suffix with a `/` separator.
///
/// Returns an error if the result is not a valid key expression. Joins on
/// whose text zenoh's canonizer panics ([`canonize_overruns`]) are outside
/// its domain.
pub fn keyexpr_new_join(a: &KeyExpr, b: String) -> (r: Result<KeyExpr, Error>)
    requires
        !canonize_overruns(keyexpr_join_text(a@, b@)),
    ensures
        r is Ok <==> keyexpr_is_valid(keyexpr_canonize(keyexpr_join_text(a@, b@))),
        r matches Ok(k) ==> k@ == keyexpr_canonize(keyexpr_join_text(a@, b@)),
{
    proof { use_type_invariant(a); }
    match base_keyexpr_join(a.text.as_str(), b.as_str()) {
        Ok(text) => Ok(KeyExpr { text }),
        Err(e) => Err(e),
    }
}

/// Append text directly to a key expression and validate the result.
///
/// No separator is inserted. Prefer [`keyexpr_new_join`] when combining path
/// segments.
pub fn keyexpr_new_concat(a: &KeyExpr, b: String) -> (r: Result<KeyExpr, Error>)
    ensures
        r is Ok <==> keyexpr_concat_ok(a@, b@),
        r matches Ok(k) ==> k@ == a@ + b@,
{
    proof { use_type_invariant(a); }
    match base_keyexpr_concat(a.text.as_str(), b.as_str()) {
        Ok(text) => Ok(KeyExpr { text }),
        Err(e) => Err(e),
    }
}

/// The relation reported by [`keyexpr_relation_to`] agrees with
/// [`keyexpr_intersects`] and [`keyexpr_includes`]: disjoint exactly when the
/// expressions do not intersect, equal exactly when they intersect and are
/// the same text, and "includes" only when the first includes the second.
pub proof fn law_relation_agrees_with_intersects_and_includes(a: Seq<char>, b: Seq<char>)
    ensures
        (keyexpr_relation_spec(a, b) == SetIntersectionLevel::Disjoint)
            <==> !keyexpr_intersects_spec(a, b),
        (keyexpr_relation_spec(a, b) == SetIntersectionLevel::Equals)
            <==> (keyexpr_intersects_spec(a, b) && a == b),
        keyexpr_relation_spec(a, b) == SetIntersectionLevel::Includes
            ==> keyexpr_includes_spec(a, b) && a != b,
        keyexpr_relation_spec(a, b) == SetIntersectionLevel::Intersects
            ==> keyexpr_intersects_spec(a, b) && !keyexpr_includes_spec(a, b) && a != b,
{
}

/// Borrow the canonical string representation of a key expression.
pub fn z_keyexpr_get_str(key_expr: &ZKeyExpr) -> (r: &str)
    ensures
        r@ == key_expr@,
{
    keyexpr_as_str(key_expr)
}

/// Validate text as a canonical key expression.
pub fn z_keyexpr_try_from(s: String) -> (r: Result<ZKeyExpr, Error>)
    ensures
        r is Ok <==> keyexpr_is_valid(s@),
        r matches Ok(k) ==> k@ == s@,
{
    keyexpr_new_try_from(s)
}

/// Clone a key-expression handle.
pub fn z_keyexpr_clone(ke: &ZKeyExpr) -> (r: ZKeyExpr)
    ensures
        r@ == ke@,
{
    keyexpr_new_clone(ke)
}

/// Canonical string form of a key expression (owned).
pub fn z_keyexpr_to_string(ke: &ZKeyExpr) -> (r: String)
    ensures
        r@ == ke@,
{
    keyexpr_to_string(ke)
}

/// Canonize text and validate the result as a key expression.
pub fn z_keyexpr_autocanonize(s: String) -> (r: Result<ZKeyExpr, Error>)
    requires
        !canonize_overruns(s@),
    ensures
        r is Ok <==> keyexpr_is_valid(keyexpr_canonize(s@)),
        r matches Ok(k) ==> k@ == keyexpr_canonize(s@),
{
    keyexpr_new_autocanonize(s)
}

/// Whether two key expressions can match a common key.
pub fn z_keyexpr_intersects(a: &ZKeyExpr, b: &ZKeyExpr) -> (r: bool)
    ensures
        r == keyexpr_intersects_spec(a@, b@),
        r == keyexpr_intersects_spec(b@, a@),
        a@ == b@ ==> r,
{
    keyexpr_intersects(a, b)
}

/// Whether every key matched by `b` is matched by `a`.
pub fn z_keyexpr_includes(a: &ZKeyExpr, b: &ZKeyExpr) -> (r: bool)
    ensures
        r == keyexpr_includes_spec(a@, b@),
        a@ == b@ ==> r,
        r ==> keyexpr_intersects_spec(a@, b@),
        r ==> forall|c: Seq<char>|
            keyexpr_is_valid(c) && #[trigger] keyexpr_includes_spec(b@, c) ==> keyexpr_includes_spec(a@, c),
{
    keyexpr_includes(a, b)
}

/// How the key sets of two expressions relate.
pub fn z_keyexpr_relation_to(a: &ZKeyExpr, b: &ZKeyExpr) -> (r: SetIntersectionLevel)
    ensures
        r == keyexpr_relation_spec(a@, b@),
{
    keyexpr_relation_to(a, b)
}

/// Join a key expression and a suffix with a `/` separator.
pub fn z_keyexpr_join(a: &ZKeyExpr, b: String) -> (r: Result<ZKeyExpr, Error>)
    requires
        !canonize_overruns(keyexpr_join_text(a@, b@)),
    ensures
        r is Ok <==> keyexpr_is_valid(keyexpr_canonize(keyexpr_join_text(a@, b@))),
        r matches Ok(k) ==> k@ == keyexpr_canonize(keyexpr_join_text(a@, b@)),
{
    keyexpr_new_join(a, b)
}

/// Append text to a key expression and validate the result.
pub fn z_keyexpr_concat(a: &ZKeyExpr, b: String) -> (r: Result<ZKeyExpr, Error>)
    ensures
        r is Ok <==> keyexpr_concat_ok(a@, b@),
        r matches Ok(k) ==> k@ == a@ + b@,
{
    keyexpr_new_concat(a, b)
}

} // verus!
