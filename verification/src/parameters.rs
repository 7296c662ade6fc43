//! Selector parameters: strings of the form `a=b;c=d|e;f=g`.
//!
//! Every operation takes and returns strings and processes them with zenoh's
//! own `Parameters`: entries are split on `;` (empty chunks skipped), an entry
//! into key and value on its first `=`, trailing `;`, `=` and `|` are ignored,
//! and a lookup returns the first entry with the key. Mutations rebuild the
//! text in normalized form: empty keys dropped, `=` omitted for empty values,
//! order kept.
use vstd::prelude::*;

verus! {

/// Whether `c` is one of the characters zenoh trims from the end of a
/// parameters string: `;`, `=` or `|`.
pub open spec fn is_param_separator(c: char) -> bool {
    c == ';' || c == '=' || c == '|'
}

/// Whether `t` ends with a character that zenoh trims.
pub open spec fn ends_with_separator(t: Seq<char>) -> bool {
    t.len() > 0 && is_param_separator(t.last())
}

/// `t` without its trailing `;`, `=` and `|` characters, as zenoh's
/// `Parameters::from` stores it.
pub open spec fn trim_separators(t: Seq<char>) -> Seq<char>
    decreases t.len(),
{
    if ends_with_separator(t) {
        trim_separators(t.drop_last())
    } else {
        t
    }
}

/// The pieces of `t` between occurrences of `c`, as `str::split` yields them:
/// always at least one piece, possibly empty.
pub open spec fn split_on(t: Seq<char>, c: char) -> Seq<Seq<char>>
    decreases t.len(),
{
    if t.len() == 0 {
        seq![Seq::<char>::empty()]
    } else {
        let rest = split_on(t.drop_first(), c);
        if t[0] == c {
            seq![Seq::<char>::empty()] + rest
        } else {
            rest.update(0, seq![t[0]] + rest[0])
        }
    }
}

/// The non-empty pieces of `ps`, in order.
pub open spec fn nonempty_pieces(ps: Seq<Seq<char>>) -> Seq<Seq<char>>
    decreases ps.len(),
{
    if ps.len() == 0 {
        ps
    } else if ps[0].len() == 0 {
        nonempty_pieces(ps.drop_first())
    } else {
        seq![ps[0]] + nonempty_pieces(ps.drop_first())
    }
}

/// An entry split into key and value on its first `=`; without `=`, the
/// whole entry is the key and the value is empty.
pub open spec fn split_entry(p: Seq<char>) -> (Seq<char>, Seq<char>)
    decreases p.len(),
{
    if p.len() == 0 {
        (p, p)
    } else if p[0] == '=' {
        (Seq::<char>::empty(), p.drop_first())
    } else {
        let r = split_entry(p.drop_first());
        (seq![p[0]] + r.0, r.1)
    }
}

/// The key-value entries zenoh's `Parameters::from(s).iter()` yields, in
/// order: the trimmed text split on `;`, empty chunks skipped, each chunk
/// split on its first `=`.
pub open spec fn parameters_entries(s: Seq<char>) -> Seq<(Seq<char>, Seq<char>)> {
    nonempty_pieces(split_on(trim_separators(s), ';')).map_values(|p: Seq<char>| split_entry(p))
}

/// The text of one entry as zenoh writes it: the key, then `=` and the value
/// when the value is not empty.
pub open spec fn render_entry(e: (Seq<char>, Seq<char>)) -> Seq<char> {
    if e.1.len() == 0 {
        e.0
    } else {
        e.0 + seq!['='] + e.1
    }
}

/// The entries written one after the other, separated by `;`.
pub open spec fn render_entries(es: Seq<(Seq<char>, Seq<char>)>) -> Seq<char>
    decreases es.len(),
{
    if es.len() == 0 {
        Seq::<char>::empty()
    } else if es.len() == 1 {
        render_entry(es[0])
    } else {
        render_entry(es[0]) + seq![';'] + render_entries(es.drop_first())
    }
}

/// The entries whose key is not empty, in order.
pub open spec fn without_empty_keys(es: Seq<(Seq<char>, Seq<char>)>) -> Seq<(Seq<char>, Seq<char>)>
    decreases es.len(),
{
    if es.len() == 0 {
        es
    } else if es[0].0.len() == 0 {
        without_empty_keys(es.drop_first())
    } else {
        seq![es[0]] + without_empty_keys(es.drop_first())
    }
}

/// The entries whose key is not `k`, in order.
pub open spec fn without_key(es: Seq<(Seq<char>, Seq<char>)>, k: Seq<char>) -> Seq<(Seq<char>, Seq<char>)>
    decreases es.len(),
{
    if es.len() == 0 {
        es
    } else if es[0].0 == k {
        without_key(es.drop_first(), k)
    } else {
        seq![es[0]] + without_key(es.drop_first(), k)
    }
}

/// Whether some entry of `es` has the key `k`.
pub open spec fn has_key(es: Seq<(Seq<char>, Seq<char>)>, k: Seq<char>) -> bool {
    exists|i: int| 0 <= i < es.len() && #[trigger] es[i].0 == k
}

/// The entries of `es` whose key is not a key of `other`, in order.
pub open spec fn without_keys_of(
    es: Seq<(Seq<char>, Seq<char>)>,
    other: Seq<(Seq<char>, Seq<char>)>,
) -> Seq<(Seq<char>, Seq<char>)>
    decreases es.len(),
{
    if es.len() == 0 {
        es
    } else if has_key(other, es[0].0) {
        without_keys_of(es.drop_first(), other)
    } else {
        seq![es[0]] + without_keys_of(es.drop_first(), other)
    }
}

/// The text zenoh builds from entries: those with an empty key are dropped,
/// the others written in order (`concat_into`).
pub open spec fn parameters_rendered(es: Seq<(Seq<char>, Seq<char>)>) -> Seq<char> {
    render_entries(without_empty_keys(es))
}

/// The values zenoh's `Parameters::values` yields for `k`: the first value
/// for `k` split on `|`, or nothing when no entry has the key.
pub open spec fn parameters_values_spec(s: Seq<char>, k: Seq<char>) -> Seq<Seq<char>> {
    match first_value(parameters_entries(s), k) {
        Some(v) => split_on(v, '|'),
        None => Seq::empty(),
    }
}

/// The text zenoh's `Parameters::insert` leaves: the entries without those
/// keyed `k`, then `(k, v)`, written out.
pub open spec fn parameters_inserted(s: Seq<char>, k: Seq<char>, v: Seq<char>) -> Seq<char> {
    parameters_rendered(without_key(parameters_entries(s), k).push((k, v)))
}

/// The text zenoh's `Parameters::remove` leaves: the entries without those
/// keyed `k`, written out.
pub open spec fn parameters_removed(s: Seq<char>, k: Seq<char>) -> Seq<char> {
    parameters_rendered(without_key(parameters_entries(s), k))
}

/// The text zenoh's `Parameters::extend` leaves: the entries of `s` whose key
/// `other` does not have, then those of `other`, written out.
pub open spec fn parameters_extended(s: Seq<char>, other: Seq<char>) -> Seq<char> {
    parameters_rendered(
        without_keys_of(parameters_entries(s), parameters_entries(other)) + parameters_entries(
            other,
        ),
    )
}

/// The value of the first entry whose key is `k`.
pub open spec fn first_value(entries: Seq<(Seq<char>, Seq<char>)>, k: Seq<char>) -> Option<Seq<char>>
    decreases entries.len(),
{
    if entries.len() == 0 {
        None
    } else if entries[0].0 == k {
        Some(entries[0].1)
    } else {
        first_value(entries.drop_first(), k)
    }
}

/// The texts of a list of key-value string pairs.
pub open spec fn pairs_view(v: Seq<(String, String)>) -> Seq<(Seq<char>, Seq<char>)> {
    v.map_values(|p: (String, String)| (p.0@, p.1@))
}

/// Whether a list of entries has at least one entry and no empty key.
pub open spec fn entries_well_formed(entries: Seq<(Seq<char>, Seq<char>)>) -> bool {
    entries.len() > 0 && forall|i: int| 0 <= i < entries.len() ==> entries[i].0.len() > 0
}

/// zenoh's `Parameters::from(s).iter()`, collected.
#[verifier::external_body]
fn base_parameters_entries(s: &str) -> (r: Vec<(String, String)>)
    ensures
        pairs_view(r@) == parameters_entries(s@),
{
    zenoh::query::Parameters::from(s).iter().map(|(k, v)| (k.to_string(), v.to_string())).collect()
}

/// zenoh's `Parameters::get`: per its source, the value of the first entry
/// of `iter()` whose key is `k`.
#[verifier::external_body]
fn base_parameters_get(s: &str, k: &str) -> (r: Option<String>)
    ensures
        r is Some <==> first_value(parameters_entries(s@), k@) is Some,
        r matches Some(v) ==> v@ == first_value(parameters_entries(s@), k@).unwrap(),
{
    zenoh::query::Parameters::from(s).get(k).map(|v| v.to_string())
}

/// zenoh's `Parameters::values`: per its source, the value `get` finds split
/// on `|`, or nothing.
#[verifier::external_body]
fn base_parameters_values(s: &str, k: &str) -> (r: Vec<String>)
    ensures
        r@.map_values(|v: String| v@) == parameters_values_spec(s@, k@),
{
    zenoh::query::Parameters::from(s).values(k).map(|v| v.to_string()).collect()
}

/// zenoh's `Parameters::contains_key`: per its source, `get(k).is_some()`.
#[verifier::external_body]
fn base_parameters_contains_key(s: &str, k: &str) -> (r: bool)
    ensures
        r == (first_value(parameters_entries(s@), k@) is Some),
{
    zenoh::query::Parameters::from(s).contains_key(k)
}

/// zenoh's `Parameters::insert`, read back as text: per its source, the
/// entries without `k` chained with `(k, v)`, written by `concat_into`.
#[verifier::external_body]
fn base_parameters_insert(s: &str, k: &str, v: &str) -> (r: String)
    ensures
        r@ == parameters_inserted(s@, k@, v@),
{
    let mut p = zenoh::query::Parameters::from(s);
    p.insert(k, v);
    p.as_str().to_string()
}

/// zenoh's `Parameters::remove`, read back as text: per its source, the
/// entries without `k`, written by `concat_into`.
#[verifier::external_body]
fn base_parameters_remove(s: &str, k: &str) -> (r: String)
    ensures
        r@ == parameters_removed(s@, k@),
{
    let mut p = zenoh::query::Parameters::from(s);
    p.remove(k);
    p.as_str().to_string()
}

/// zenoh's `Parameters::extend`, read back as text: per its source (`join`),
/// the entries of `s` whose key `other` lacks chained with those of `other`,
/// written by `concat_into`.
#[verifier::external_body]
fn base_parameters_extend(s: &str, other: &str) -> (r: String)
    ensures
        r@ == parameters_extended(s@, other@),
{
    let mut p = zenoh::query::Parameters::from(s);
    p.extend(&zenoh::query::Parameters::from(other));
    p.as_str().to_string()
}

/// Get the value for a key: the value of the first entry with that key.
pub fn parameters_get(s: &str, k: &str) -> (r: Option<String>)
    ensures
        r is Some <==> first_value(parameters_entries(s@), k@) is Some,
        r matches Some(v) ==> v@ == first_value(parameters_entries(s@), k@).unwrap(),
{
    base_parameters_get(s, k)
}

/// Get the `|`-separated list of values for a key; empty when the key is
/// absent.
pub fn parameters_values(s: &str, k: &str) -> (r: Vec<String>)
    ensures
        r@.map_values(|v: String| v@) == parameters_values_spec(s@, k@),
        first_value(parameters_entries(s@), k@) is None ==> r@.len() == 0,
{
    let r = base_parameters_values(s, k);
    assert(r@.len() == r@.map_values(|v: String| v@).len());
    r
}

/// Return `true` if the parameters string contains the key.
pub fn parameters_contains_key(s: &str, k: &str) -> (r: bool)
    ensures
        r == (first_value(parameters_entries(s@), k@) is Some),
{
    base_parameters_contains_key(s, k)
}

/// Insert a key-value pair: every existing entry for the key is removed and
/// the new pair appended at the end. Returns the resulting string.
pub fn parameters_insert(s: &str, k: &str, v: &str) -> (r: String)
    ensures
        r@ == parameters_inserted(s@, k@, v@),
{
    base_parameters_insert(s, k, v)
}

/// Remove every entry for a key. Returns the resulting string.
pub fn parameters_remove(s: &str, k: &str) -> (r: String)
    ensures
        r@ == parameters_removed(s@, k@),
{
    base_parameters_remove(s, k)
}

/// Extend a parameters string with the entries of another; on conflicting
/// keys `other`'s values win. Returns the resulting string.
pub fn parameters_extend(s: &str, other: &str) -> (r: String)
    ensures
        r@ == parameters_extended(s@, other@),
{
    base_parameters_extend(s, other)
}

/// Return `true` if the parameters string contains at least one entry and
/// none of its keys are empty.
pub fn parameters_is_well_formed(s: &str) -> (r: bool)
    ensures
        r == entries_well_formed(parameters_entries(s@)),
        r <==> (parameters_entries(s@).len() > 0 && forall|i: int|
            0 <= i < parameters_entries(s@).len() ==> (#[trigger] parameters_entries(s@)[i]).0.len() > 0),
        (exists|i: int| 0 <= i < parameters_entries(s@).len()
            && (#[trigger] parameters_entries(s@)[i]).0.len() == 0) ==> !r,
        parameters_entries(s@).len() == 0 ==> !r,
{
    let entries = base_parameters_entries(s);
    let ghost ev = pairs_view(entries@);
    if entries.len() == 0 {
        return false;
    }
    let mut i: usize = 0;
    while i < entries.len()
        invariant
            i <= entries.len(),
            ev == pairs_view(entries@),
            ev == parameters_entries(s@),
            ev.len() == entries@.len(),
            forall|j: int| 0 <= j < i ==> ev[j].0.len() > 0,
        decreases entries.len() - i,
    {
        assert(ev[i as int] == (entries@[i as int].0@, entries@[i as int].1@));
        if entries[i].0.as_str().is_empty() {
            assert(ev[i as int].0.len() == 0);
            assert(!entries_well_formed(ev));
            return false;
        }
        i = i + 1;
    }
    true
}

/// A key is contained exactly when a lookup finds a value for it.
pub proof fn law_contains_key_iff_get(s: Seq<char>, k: Seq<char>)
    ensures
        (first_value(parameters_entries(s), k) is Some)
            <==> exists|i: int| 0 <= i < parameters_entries(s).len()
                && #[trigger] parameters_entries(s)[i].0 == k,
{
    lemma_first_value_some(parameters_entries(s), k);
}

/// A lookup finds a value exactly when some entry has the key, and the value
/// it finds belongs to the first such entry.
pub proof fn lemma_first_value_some(entries: Seq<(Seq<char>, Seq<char>)>, k: Seq<char>)
    ensures
        (first_value(entries, k) is Some)
            <==> exists|i: int| 0 <= i < entries.len() && #[trigger] entries[i].0 == k,
        first_value(entries, k) matches Some(v) ==> exists|i: int|
            0 <= i < entries.len() && #[trigger] entries[i] == (k, v)
            && forall|j: int| 0 <= j < i ==> entries[j].0 != k,
    decreases entries.len(),
{
    if entries.len() > 0 {
        lemma_first_value_some(entries.drop_first(), k);
        if entries[0].0 != k {
            if exists|i: int| 0 <= i < entries.len() && #[trigger] entries[i].0 == k {
                let i = choose|i: int| 0 <= i < entries.len() && #[trigger] entries[i].0 == k;
                assert(entries.drop_first()[i - 1].0 == k);
            }
            if first_value(entries, k) is Some {
                let v = first_value(entries, k).unwrap();
                let i = choose|i: int| 0 <= i < entries.drop_first().len()
                    && #[trigger] entries.drop_first()[i] == (k, v)
                    && forall|j: int| 0 <= j < i ==> entries.drop_first()[j].0 != k;
                assert(entries[i + 1] == (k, v));
                assert forall|j: int| 0 <= j < i + 1 implies entries[j].0 != k by {
                    if j > 0 {
                        assert(entries[j] == entries.drop_first()[j - 1]);
                    }
                }
            }
        } else {
            assert(entries[0] == (k, entries[0].1));
        }
    }
}

/// `split_on` yields at least one piece.
proof fn lemma_split_on_len(t: Seq<char>, c: char)
    ensures
        split_on(t, c).len() >= 1,
    decreases t.len(),
{
    if t.len() > 0 {
        lemma_split_on_len(t.drop_first(), c);
    }
}

/// Text without `c` is a single piece.
proof fn lemma_split_on_whole(a: Seq<char>, c: char)
    requires
        !a.contains(c),
    ensures
        split_on(a, c) == seq![a],
    decreases a.len(),
{
    if a.len() > 0 {
        assert(a[0] != c) by {
            if a[0] == c {
                assert(a.contains(c));
            }
        }
        assert(!a.drop_first().contains(c)) by {
            if a.drop_first().contains(c) {
                let i = choose|i: int| 0 <= i < a.drop_first().len() && a.drop_first()[i] == c;
                assert(a[i + 1] == c);
            }
        }
        lemma_split_on_whole(a.drop_first(), c);
        assert(seq![a[0]] + a.drop_first() =~= a);
        assert(split_on(a, c) =~= seq![a]);
    } else {
        assert(a =~= Seq::<char>::empty());
    }
}

/// A piece without `c`, then `c`, then the rest: the piece comes first.
proof fn lemma_split_on_concat(a: Seq<char>, b: Seq<char>, c: char)
    requires
        !a.contains(c),
    ensures
        split_on(a + seq![c] + b, c) == seq![a] + split_on(b, c),
    decreases a.len(),
{
    let t = a + seq![c] + b;
    if a.len() == 0 {
        assert(t[0] == c);
        assert(t.drop_first() =~= b);
        assert(a =~= Seq::<char>::empty());
    } else {
        assert(a[0] != c) by {
            if a[0] == c {
                assert(a.contains(c));
            }
        }
        assert(!a.drop_first().contains(c)) by {
            if a.drop_first().contains(c) {
                let i = choose|i: int| 0 <= i < a.drop_first().len() && a.drop_first()[i] == c;
                assert(a[i + 1] == c);
            }
        }
        lemma_split_on_concat(a.drop_first(), b, c);
        assert(t.drop_first() =~= a.drop_first() + seq![c] + b);
        assert(t[0] == a[0]);
        assert(seq![a[0]] + a.drop_first() =~= a);
        assert(split_on(t, c) =~= seq![a] + split_on(b, c));
    }
}

/// No piece of `split_on(t, c)` contains `c`.
proof fn lemma_split_on_pieces(t: Seq<char>, c: char)
    ensures
        forall|i: int| 0 <= i < split_on(t, c).len() ==> !(#[trigger] split_on(t, c)[i]).contains(c),
    decreases t.len(),
{
    if t.len() > 0 {
        lemma_split_on_pieces(t.drop_first(), c);
        lemma_split_on_len(t.drop_first(), c);
        let rest = split_on(t.drop_first(), c);
        if t[0] != c {
            let first = seq![t[0]] + rest[0];
            assert(!first.contains(c)) by {
                if first.contains(c) {
                    let j = choose|j: int| 0 <= j < first.len() && first[j] == c;
                    if j > 0 {
                        assert(rest[0][j - 1] == c);
                        assert(rest[0].contains(c));
                    }
                }
            }
        }
    }
}

/// Whether an entry can stand in a parameters text: its key holds neither
/// `;` nor `=`, its value no `;`.
pub open spec fn entry_clean(e: (Seq<char>, Seq<char>)) -> bool {
    !e.0.contains(';') && !e.0.contains('=') && !e.1.contains(';')
}

/// A key without `=` is split off whole.
proof fn lemma_split_entry_key_only(k: Seq<char>)
    requires
        !k.contains('='),
    ensures
        split_entry(k) == (k, Seq::<char>::empty()),
    decreases k.len(),
{
    if k.len() > 0 {
        assert(k[0] != '=') by {
            if k[0] == '=' {
                assert(k.contains('='));
            }
        }
        assert(!k.drop_first().contains('=')) by {
            if k.drop_first().contains('=') {
                let i = choose|i: int| 0 <= i < k.drop_first().len() && k.drop_first()[i] == '=';
                assert(k[i + 1] == '=');
            }
        }
        lemma_split_entry_key_only(k.drop_first());
        assert(seq![k[0]] + k.drop_first() =~= k);
    } else {
        assert(k =~= Seq::<char>::empty());
    }
}

/// A key without `=`, then `=`, then a value: split back into both.
proof fn lemma_split_entry_pair(k: Seq<char>, v: Seq<char>)
    requires
        !k.contains('='),
    ensures
        split_entry(k + seq!['='] + v) == (k, v),
    decreases k.len(),
{
    let t = k + seq!['='] + v;
    if k.len() == 0 {
        assert(t[0] == '=');
        assert(t.drop_first() =~= v);
        assert(k =~= Seq::<char>::empty());
    } else {
        assert(k[0] != '=') by {
            if k[0] == '=' {
                assert(k.contains('='));
            }
        }
        assert(!k.drop_first().contains('=')) by {
            if k.drop_first().contains('=') {
                let i = choose|i: int| 0 <= i < k.drop_first().len() && k.drop_first()[i] == '=';
                assert(k[i + 1] == '=');
            }
        }
        lemma_split_entry_pair(k.drop_first(), v);
        assert(t.drop_first() =~= k.drop_first() + seq!['='] + v);
        assert(t[0] == k[0]);
        assert(seq![k[0]] + k.drop_first() =~= k);
    }
}

/// A written entry reads back as itself.
proof fn lemma_split_entry_render(e: (Seq<char>, Seq<char>))
    requires
        !e.0.contains('='),
    ensures
        split_entry(render_entry(e)) == e,
{
    if e.1.len() == 0 {
        lemma_split_entry_key_only(e.0);
        assert(e.1 =~= Seq::<char>::empty());
    } else {
        lemma_split_entry_pair(e.0, e.1);
    }
}

/// Splitting an entry takes no character that is not in it, and the key
/// holds no `=`.
proof fn lemma_split_entry_parts(p: Seq<char>, x: char)
    ensures
        !split_entry(p).0.contains('='),
        !p.contains(x) ==> !split_entry(p).0.contains(x) && !split_entry(p).1.contains(x),
    decreases p.len(),
{
    if p.len() > 0 {
        if p[0] == '=' {
            assert(!Seq::<char>::empty().contains('='));
            assert(!Seq::<char>::empty().contains(x));
            if !p.contains(x) {
                assert(!p.drop_first().contains(x)) by {
                    if p.drop_first().contains(x) {
                        let i = choose|i: int| 0 <= i < p.drop_first().len() && p.drop_first()[i] == x;
                        assert(p[i + 1] == x);
                    }
                }
            }
        } else {
            lemma_split_entry_parts(p.drop_first(), x);
            let r = split_entry(p.drop_first());
            let key = seq![p[0]] + r.0;
            assert(!key.contains('=')) by {
                if key.contains('=') {
                    let j = choose|j: int| 0 <= j < key.len() && key[j] == '=';
                    if j > 0 {
                        assert(r.0[j - 1] == '=');
                        assert(r.0.contains('='));
                    }
                }
            }
            if !p.contains(x) {
                assert(!p.drop_first().contains(x)) by {
                    if p.drop_first().contains(x) {
                        let i = choose|i: int| 0 <= i < p.drop_first().len() && p.drop_first()[i] == x;
                        assert(p[i + 1] == x);
                    }
                }
                assert(!key.contains(x)) by {
                    if key.contains(x) {
                        let j = choose|j: int| 0 <= j < key.len() && key[j] == x;
                        if j > 0 {
                            assert(r.0[j - 1] == x);
                            assert(r.0.contains(x));
                        } else {
                            assert(p.contains(x));
                        }
                    }
                }
            }
        }
    } else {
        assert(!p.contains('='));
    }
}

/// Skipping empty pieces keeps pieces of `ps` that are not empty, and all
/// pieces without `c` stay without `c`.
proof fn lemma_nonempty_pieces(ps: Seq<Seq<char>>, c: char)
    ensures
        forall|i: int| 0 <= i < nonempty_pieces(ps).len() ==> (#[trigger] nonempty_pieces(ps)[i]).len() > 0,
        (forall|i: int| 0 <= i < ps.len() ==> !(#[trigger] ps[i]).contains(c)) ==>
            forall|i: int| 0 <= i < nonempty_pieces(ps).len() ==> !(#[trigger] nonempty_pieces(ps)[i]).contains(c),
        (forall|i: int| 0 <= i < ps.len() ==> (#[trigger] ps[i]).len() > 0) ==> nonempty_pieces(ps) == ps,
    decreases ps.len(),
{
    if ps.len() > 0 {
        lemma_nonempty_pieces(ps.drop_first(), c);
        if forall|i: int| 0 <= i < ps.len() ==> !(#[trigger] ps[i]).contains(c) {
            assert(forall|i: int| 0 <= i < ps.drop_first().len() ==> !(#[trigger] ps.drop_first()[i]).contains(c)) by {
                assert forall|i: int| 0 <= i < ps.drop_first().len() implies !(#[trigger] ps.drop_first()[i]).contains(c) by {
                    assert(ps.drop_first()[i] == ps[i + 1]);
                }
            }
        }
        if forall|i: int| 0 <= i < ps.len() ==> (#[trigger] ps[i]).len() > 0 {
            assert(forall|i: int| 0 <= i < ps.drop_first().len() ==> (#[trigger] ps.drop_first()[i]).len() > 0) by {
                assert forall|i: int| 0 <= i < ps.drop_first().len() implies (#[trigger] ps.drop_first()[i]).len() > 0 by {
                    assert(ps.drop_first()[i] == ps[i + 1]);
                }
            }
            assert(ps[0].len() > 0);
            assert(seq![ps[0]] + ps.drop_first() =~= ps);
        }
        let n = nonempty_pieces(ps);
        let r = nonempty_pieces(ps.drop_first());
        if ps[0].len() > 0 {
            assert forall|i: int| 0 <= i < n.len() implies (#[trigger] n[i]).len() > 0 by {
                if i > 0 {
                    assert(n[i] == r[i - 1]);
                }
            }
            if forall|i: int| 0 <= i < ps.len() ==> !(#[trigger] ps[i]).contains(c) {
                assert(!ps[0].contains(c));
                assert forall|i: int| 0 <= i < n.len() implies !(#[trigger] n[i]).contains(c) by {
                    if i > 0 {
                        assert(n[i] == r[i - 1]);
                    }
                }
            }
        }
    }
}

/// Every entry zenoh reads from a text is clean.
pub proof fn lemma_entries_clean(s: Seq<char>)
    ensures
        forall|i: int| 0 <= i < parameters_entries(s).len() ==> entry_clean(#[trigger] parameters_entries(s)[i]),
{
    let ps = split_on(trim_separators(s), ';');
    lemma_split_on_pieces(trim_separators(s), ';');
    lemma_nonempty_pieces(ps, ';');
    let ne = nonempty_pieces(ps);
    assert forall|i: int| 0 <= i < parameters_entries(s).len() implies entry_clean(#[trigger] parameters_entries(s)[i]) by {
        assert(parameters_entries(s)[i] == split_entry(ne[i]));
        lemma_split_entry_parts(ne[i], ';');
    }
}

/// A written entry holds a character other than `=` only if its key or
/// value does.
proof fn lemma_render_entry_without(e: (Seq<char>, Seq<char>), x: char)
    requires
        x != '=',
        !e.0.contains(x),
        !e.1.contains(x),
    ensures
        !render_entry(e).contains(x),
{
    if e.1.len() > 0 {
        let t = e.0 + seq!['='] + e.1;
        if t.contains(x) {
            let j = choose|j: int| 0 <= j < t.len() && t[j] == x;
            if j < e.0.len() {
                assert(e.0[j] == x);
                assert(e.0.contains(x));
            } else if j > e.0.len() {
                assert(e.1[j - e.0.len() - 1] == x);
                assert(e.1.contains(x));
            }
        }
    }
}

/// Written entries split on `;` give back each entry's text.
proof fn lemma_split_rendered(es: Seq<(Seq<char>, Seq<char>)>)
    requires
        es.len() >= 1,
        forall|i: int| 0 <= i < es.len() ==> entry_clean(#[trigger] es[i]),
    ensures
        split_on(render_entries(es), ';') == es.map_values(|e: (Seq<char>, Seq<char>)| render_entry(e)),
    decreases es.len(),
{
    assert(entry_clean(es[0]));
    lemma_render_entry_without(es[0], ';');
    if es.len() == 1 {
        lemma_split_on_whole(render_entry(es[0]), ';');
        assert(split_on(render_entries(es), ';') =~= es.map_values(|e: (Seq<char>, Seq<char>)| render_entry(e)));
    } else {
        let rest = es.drop_first();
        assert forall|i: int| 0 <= i < rest.len() implies entry_clean(#[trigger] rest[i]) by {
            assert(rest[i] == es[i + 1]);
        }
        lemma_split_rendered(rest);
        lemma_split_on_concat(render_entry(es[0]), render_entries(rest), ';');
        assert(split_on(render_entries(es), ';') =~= es.map_values(|e: (Seq<char>, Seq<char>)| render_entry(e)));
    }
}

/// The last character of written entries is that of the last entry.
proof fn lemma_render_last(es: Seq<(Seq<char>, Seq<char>)>)
    requires
        es.len() >= 1,
        render_entry(es.last()).len() > 0,
    ensures
        render_entries(es).len() > 0,
        render_entries(es).last() == render_entry(es.last()).last(),
    decreases es.len(),
{
    if es.len() > 1 {
        assert(es.drop_first().last() == es.last());
        lemma_render_last(es.drop_first());
    }
}

/// Clean entries with non-empty keys, written out, read back as themselves,
/// provided the text does not end with a character zenoh trims.
pub proof fn lemma_read_written(es: Seq<(Seq<char>, Seq<char>)>)
    requires
        forall|i: int| 0 <= i < es.len() ==> entry_clean(#[trigger] es[i]) && es[i].0.len() > 0,
        !ends_with_separator(render_entries(es)),
    ensures
        parameters_entries(render_entries(es)) == es,
{
    let t = render_entries(es);
    assert(trim_separators(t) == t);
    if es.len() == 0 {
        assert(t =~= Seq::<char>::empty());
        let ps = split_on(t, ';');
        assert(ps =~= seq![Seq::<char>::empty()]);
        assert(ps[0].len() == 0);
        assert(ps.drop_first() =~= Seq::<Seq<char>>::empty());
        assert(nonempty_pieces(ps.drop_first()) =~= Seq::<Seq<char>>::empty());
        assert(nonempty_pieces(ps) =~= Seq::<Seq<char>>::empty());
        assert(parameters_entries(t) =~= es);
    } else {
        assert(forall|i: int| 0 <= i < es.len() ==> entry_clean(#[trigger] es[i]));
        lemma_split_rendered(es);
        let ps = es.map_values(|e: (Seq<char>, Seq<char>)| render_entry(e));
        assert forall|i: int| 0 <= i < ps.len() implies (#[trigger] ps[i]).len() > 0 by {
            assert(ps[i] == render_entry(es[i]));
            assert(es[i].0.len() > 0);
            if es[i].1.len() > 0 {
                assert((es[i].0 + seq!['='] + es[i].1).len() == es[i].0.len() + 1 + es[i].1.len());
            }
        }
        lemma_nonempty_pieces(ps, ';');
        assert forall|i: int| 0 <= i < es.len() implies #[trigger] split_entry(ps[i]) == es[i] by {
            assert(ps[i] == render_entry(es[i]));
            lemma_split_entry_render(es[i]);
        }
        assert(parameters_entries(t) =~= es);
    }
}

/// Whether every entry is clean.
pub open spec fn all_clean(es: Seq<(Seq<char>, Seq<char>)>) -> bool {
    forall|i: int| 0 <= i < es.len() ==> entry_clean(#[trigger] es[i])
}

/// Whether every entry is clean and has a non-empty key.
pub open spec fn all_writable(es: Seq<(Seq<char>, Seq<char>)>) -> bool {
    forall|i: int| 0 <= i < es.len() ==> entry_clean(#[trigger] es[i]) && es[i].0.len() > 0
}

proof fn lemma_all_clean_rest(es: Seq<(Seq<char>, Seq<char>)>)
    requires
        es.len() > 0,
        all_clean(es),
    ensures
        entry_clean(es[0]),
        all_clean(es.drop_first()),
{
    assert(entry_clean(es[0]));
    assert forall|i: int| 0 <= i < es.drop_first().len() implies entry_clean(#[trigger] es.drop_first()[i]) by {
        assert(es.drop_first()[i] == es[i + 1]);
    }
}

proof fn lemma_all_clean_add(a: Seq<(Seq<char>, Seq<char>)>, b: Seq<(Seq<char>, Seq<char>)>)
    requires
        all_clean(a),
        all_clean(b),
    ensures
        all_clean(a + b),
{
    assert forall|i: int| 0 <= i < (a + b).len() implies entry_clean(#[trigger] (a + b)[i]) by {
        if i >= a.len() {
            assert((a + b)[i] == b[i - a.len()]);
        }
    }
}

proof fn lemma_all_writable_add(a: Seq<(Seq<char>, Seq<char>)>, b: Seq<(Seq<char>, Seq<char>)>)
    requires
        all_writable(a),
        all_writable(b),
    ensures
        all_writable(a + b),
{
    assert forall|i: int| 0 <= i < (a + b).len() implies entry_clean(#[trigger] (a + b)[i]) && (a + b)[i].0.len() > 0 by {
        if i >= a.len() {
            assert((a + b)[i] == b[i - a.len()]);
        } else {
            assert((a + b)[i] == a[i]);
        }
    }
}

/// Dropping entries keyed `k` keeps the others clean.
proof fn lemma_without_key_clean(es: Seq<(Seq<char>, Seq<char>)>, k: Seq<char>)
    requires
        all_clean(es),
    ensures
        all_clean(without_key(es, k)),
    decreases es.len(),
{
    if es.len() > 0 {
        lemma_all_clean_rest(es);
        lemma_without_key_clean(es.drop_first(), k);
        if es[0].0 != k {
            lemma_all_clean_add(seq![es[0]], without_key(es.drop_first(), k));
        }
    }
}

/// Dropping entries keyed by `other` keeps the others clean.
proof fn lemma_without_keys_of_clean(es: Seq<(Seq<char>, Seq<char>)>, other: Seq<(Seq<char>, Seq<char>)>)
    requires
        all_clean(es),
    ensures
        all_clean(without_keys_of(es, other)),
    decreases es.len(),
{
    if es.len() > 0 {
        lemma_all_clean_rest(es);
        lemma_without_keys_of_clean(es.drop_first(), other);
        if !has_key(other, es[0].0) {
            lemma_all_clean_add(seq![es[0]], without_keys_of(es.drop_first(), other));
        }
    }
}

/// Dropping entries with empty keys leaves writable entries.
proof fn lemma_without_empty_keys_writable(es: Seq<(Seq<char>, Seq<char>)>)
    requires
        all_clean(es),
    ensures
        all_writable(without_empty_keys(es)),
    decreases es.len(),
{
    if es.len() > 0 {
        lemma_all_clean_rest(es);
        lemma_without_empty_keys_writable(es.drop_first());
        if es[0].0.len() > 0 {
            lemma_all_writable_add(seq![es[0]], without_empty_keys(es.drop_first()));
        }
    }
}

/// Dropping empty keys distributes over concatenation.
proof fn lemma_without_empty_keys_add(a: Seq<(Seq<char>, Seq<char>)>, b: Seq<(Seq<char>, Seq<char>)>)
    ensures
        without_empty_keys(a + b) == without_empty_keys(a) + without_empty_keys(b),
    decreases a.len(),
{
    if a.len() == 0 {
        assert(a + b =~= b);
        assert(without_empty_keys(a) + without_empty_keys(b) =~= without_empty_keys(b));
    } else {
        lemma_without_empty_keys_add(a.drop_first(), b);
        assert((a + b).drop_first() =~= a.drop_first() + b);
        assert((a + b)[0] == a[0]);
        if a[0].0.len() > 0 {
            assert(without_empty_keys(a + b) =~= without_empty_keys(a) + without_empty_keys(b));
        }
    }
}

/// A lookup in two lists put together finds in the first one if it can.
proof fn lemma_first_value_add(a: Seq<(Seq<char>, Seq<char>)>, b: Seq<(Seq<char>, Seq<char>)>, k: Seq<char>)
    ensures
        first_value(a + b, k) == (if first_value(a, k) is Some { first_value(a, k) } else { first_value(b, k) }),
    decreases a.len(),
{
    if a.len() == 0 {
        assert(a + b =~= b);
    } else {
        lemma_first_value_add(a.drop_first(), b, k);
        assert((a + b).drop_first() =~= a.drop_first() + b);
        assert((a + b)[0] == a[0]);
    }
}

/// No entry keyed `k` is left to find; other keys are found as before.
proof fn lemma_first_value_without_key(es: Seq<(Seq<char>, Seq<char>)>, k: Seq<char>, k2: Seq<char>)
    ensures
        first_value(without_key(es, k), k2) == (if k2 == k { None } else { first_value(es, k2) }),
    decreases es.len(),
{
    if es.len() > 0 {
        lemma_first_value_without_key(es.drop_first(), k, k2);
        if es[0].0 != k {
            let w = seq![es[0]] + without_key(es.drop_first(), k);
            assert(w[0] == es[0]);
            assert(w.drop_first() =~= without_key(es.drop_first(), k));
        }
    }
}

/// Dropping empty keys changes no lookup of a non-empty key.
proof fn lemma_first_value_without_empty_keys(es: Seq<(Seq<char>, Seq<char>)>, k: Seq<char>)
    ensures
        first_value(without_empty_keys(es), k) == (if k.len() == 0 { None } else { first_value(es, k) }),
    decreases es.len(),
{
    if es.len() > 0 {
        lemma_first_value_without_empty_keys(es.drop_first(), k);
        if es[0].0.len() > 0 {
            let w = seq![es[0]] + without_empty_keys(es.drop_first());
            assert(w[0] == es[0]);
            assert(w.drop_first() =~= without_empty_keys(es.drop_first()));
        } else if k.len() > 0 {
            assert(es[0].0 != k);
        }
    }
}

/// After dropping the keys of `other`, none of them is found; other keys
/// are found as before.
proof fn lemma_first_value_without_keys_of(
    es: Seq<(Seq<char>, Seq<char>)>,
    other: Seq<(Seq<char>, Seq<char>)>,
    k: Seq<char>,
)
    ensures
        first_value(without_keys_of(es, other), k) == (if has_key(other, k) { None } else { first_value(es, k) }),
    decreases es.len(),
{
    if es.len() > 0 {
        lemma_first_value_without_keys_of(es.drop_first(), other, k);
        if !has_key(other, es[0].0) {
            let w = seq![es[0]] + without_keys_of(es.drop_first(), other);
            assert(w[0] == es[0]);
            assert(w.drop_first() =~= without_keys_of(es.drop_first(), other));
        }
    }
}

/// Whether `(k, v)` survives being written into a parameters text and read
/// back: a non-empty key holding neither `;` nor `=`, a value without `;`,
/// and a written form `k` or `k=v` that does not end with `;`, `=` or `|`
/// (zenoh trims those from the end of the text).
pub open spec fn insertable(k: Seq<char>, v: Seq<char>) -> bool {
    &&& k.len() > 0
    &&& !k.contains(';')
    &&& !k.contains('=')
    &&& !v.contains(';')
    &&& !ends_with_separator(render_entry((k, v)))
}

/// The text written from `es` reads back as `es` with its empty keys
/// dropped, when it does not end with a character zenoh trims.
proof fn lemma_rendered_reads_back(es: Seq<(Seq<char>, Seq<char>)>)
    requires
        all_clean(es),
        !ends_with_separator(parameters_rendered(es)),
    ensures
        parameters_entries(parameters_rendered(es)) == without_empty_keys(es),
{
    lemma_without_empty_keys_writable(es);
    lemma_read_written(without_empty_keys(es));
}

/// After inserting `(k, v)` into a parameters text, its entries are those of
/// the text without `k` (empty keys dropped, order kept) followed by `(k, v)`:
/// the pair comes last and is the only one with its key, looking up `k` gives
/// `v`, and looking up any other non-empty key gives what it gave before.
pub proof fn law_insert_then_get(s: Seq<char>, k: Seq<char>, v: Seq<char>, other: Seq<char>)
    requires
        insertable(k, v),
    ensures
        parameters_entries(parameters_inserted(s, k, v))
            == without_empty_keys(without_key(parameters_entries(s), k)).push((k, v)),
        first_value(parameters_entries(parameters_inserted(s, k, v)), k) == Some(v),
        other != k && other.len() > 0 ==> first_value(parameters_entries(parameters_inserted(s, k, v)), other)
            == first_value(parameters_entries(s), other),
{
    let e = parameters_entries(s);
    lemma_entries_clean(s);
    let w = without_key(e, k);
    lemma_without_key_clean(e, k);
    let single = seq![(k, v)];
    assert(single.drop_first() =~= Seq::<(Seq<char>, Seq<char>)>::empty());
    assert(single[0] == (k, v));
    assert(without_empty_keys(single.drop_first()) =~= Seq::<(Seq<char>, Seq<char>)>::empty());
    assert(first_value(single.drop_first(), other) is None);
    assert(without_empty_keys(single) =~= single);
    assert(w.push((k, v)) =~= w + single);
    lemma_without_empty_keys_add(w, single);
    let es = without_empty_keys(w) + single;
    assert(without_empty_keys(w.push((k, v))) == es);
    assert(all_clean(single));
    lemma_all_clean_add(w, single);
    assert(es.last() == (k, v));
    assert(render_entry((k, v)).len() > 0) by {
        if v.len() > 0 {
            assert((k + seq!['='] + v).len() == k.len() + 1 + v.len());
        }
    }
    lemma_render_last(es);
    lemma_rendered_reads_back(w.push((k, v)));
    assert(es =~= without_empty_keys(w).push((k, v)));
    lemma_first_value_add(without_empty_keys(w), single, k);
    lemma_first_value_without_empty_keys(w, k);
    lemma_first_value_without_key(e, k, k);
    lemma_first_value_add(without_empty_keys(w), single, other);
    lemma_first_value_without_empty_keys(w, other);
    lemma_first_value_without_key(e, k, other);
    assert(single[0] == (k, v));
}

/// After removing `k` from a parameters text, its entries are those of the
/// text without `k` (empty keys dropped, order kept), a second removal
/// changes nothing, looking up `k` finds nothing, and looking up any other
/// non-empty key gives what it gave before; this holds when the rebuilt text
/// does not end with a character zenoh trims.
pub proof fn law_remove_then_get(s: Seq<char>, k: Seq<char>, other: Seq<char>)
    requires
        !ends_with_separator(parameters_removed(s, k)),
    ensures
        parameters_entries(parameters_removed(s, k)) == without_empty_keys(without_key(parameters_entries(s), k)),
        parameters_removed(parameters_removed(s, k), k) == parameters_removed(s, k),
        first_value(parameters_entries(parameters_removed(s, k)), k) is None,
        other != k && other.len() > 0 ==> first_value(parameters_entries(parameters_removed(s, k)), other)
            == first_value(parameters_entries(s), other),
{
    let e = parameters_entries(s);
    lemma_entries_clean(s);
    let w = without_key(e, k);
    lemma_without_key_clean(e, k);
    lemma_rendered_reads_back(w);
    lemma_first_value_without_empty_keys(w, k);
    lemma_first_value_without_key(e, k, k);
    lemma_first_value_without_empty_keys(w, other);
    lemma_first_value_without_key(e, k, other);
    let kept = without_empty_keys(w);
    lemma_without_empty_keys_writable(w);
    lemma_first_value_some(kept, k);
    lemma_without_key_absent(kept, k);
    lemma_without_empty_keys_kept(kept);
}

/// Dropping a key that no entry has changes nothing.
proof fn lemma_without_key_absent(es: Seq<(Seq<char>, Seq<char>)>, k: Seq<char>)
    requires
        !has_key(es, k),
    ensures
        without_key(es, k) == es,
    decreases es.len(),
{
    if es.len() > 0 {
        assert(es[0].0 != k);
        assert(!has_key(es.drop_first(), k)) by {
            if has_key(es.drop_first(), k) {
                let i = choose|i: int| 0 <= i < es.drop_first().len() && #[trigger] es.drop_first()[i].0 == k;
                assert(es[i + 1].0 == k);
            }
        }
        lemma_without_key_absent(es.drop_first(), k);
        assert(seq![es[0]] + es.drop_first() =~= es);
    }
}

/// Dropping empty keys from entries that have none changes nothing.
proof fn lemma_without_empty_keys_kept(es: Seq<(Seq<char>, Seq<char>)>)
    requires
        all_writable(es),
    ensures
        without_empty_keys(es) == es,
    decreases es.len(),
{
    if es.len() > 0 {
        assert(es[0].0.len() > 0);
        assert(all_writable(es.drop_first())) by {
            assert forall|i: int| 0 <= i < es.drop_first().len() implies entry_clean(#[trigger] es.drop_first()[i]) && es.drop_first()[i].0.len() > 0 by {
                assert(es.drop_first()[i] == es[i + 1]);
            }
        }
        lemma_without_empty_keys_kept(es.drop_first());
        assert(seq![es[0]] + es.drop_first() =~= es);
    }
}

/// After extending a parameters text with `other`, its entries are those of
/// the text whose key `other` lacks, then those of `other` (empty keys
/// dropped, order kept): a non-empty key of `other` gives `other`'s value,
/// and any other non-empty key gives what it gave before; this holds when the
/// rebuilt text does not end with a character zenoh trims.
pub proof fn law_extend_then_get(s: Seq<char>, other: Seq<char>, k: Seq<char>)
    requires
        !ends_with_separator(parameters_extended(s, other)),
        k.len() > 0,
    ensures
        parameters_entries(parameters_extended(s, other)) == without_empty_keys(
            without_keys_of(parameters_entries(s), parameters_entries(other)) + parameters_entries(other),
        ),
        first_value(parameters_entries(parameters_extended(s, other)), k) == (if has_key(
            parameters_entries(other),
            k,
        ) {
            first_value(parameters_entries(other), k)
        } else {
            first_value(parameters_entries(s), k)
        }),
{
    let e = parameters_entries(s);
    let o = parameters_entries(other);
    lemma_entries_clean(s);
    lemma_entries_clean(other);
    let w = without_keys_of(e, o);
    lemma_without_keys_of_clean(e, o);
    lemma_all_clean_add(w, o);
    lemma_rendered_reads_back(w + o);
    lemma_first_value_without_empty_keys(w + o, k);
    lemma_first_value_add(w, o, k);
    lemma_first_value_without_keys_of(e, o, k);
    lemma_first_value_some(o, k);
}

/// Parameters are well formed exactly when they have an entry and no entry,
/// the first included, has an empty key: a single entry with an empty key
/// makes them ill formed, whatever its place.
pub proof fn law_well_formed_means_no_empty_key(s: Seq<char>, i: int)
    ensures
        entries_well_formed(parameters_entries(s)) <==> (parameters_entries(s).len() > 0
            && forall|j: int| 0 <= j < parameters_entries(s).len()
                ==> (#[trigger] parameters_entries(s)[j]).0.len() > 0),
        0 <= i < parameters_entries(s).len() && parameters_entries(s)[i].0.len() == 0
            ==> !entries_well_formed(parameters_entries(s)),
        parameters_entries(s).len() == 0 ==> !entries_well_formed(parameters_entries(s)),
{
}

} // verus!
