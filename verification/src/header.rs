//! Header fields of proxied messages, and the hop-by-hop header rules.
//!
//! End-to-end headers travel to the final recipient of a request or response;
//! hop-by-hop headers are meaningful only for a single transport-level
//! connection and are not forwarded by a proxy.
//!
//! A header map behaves as an ordered multimap: looking a name up yields the
//! first value stored under it, and inserting a name replaces every value
//! stored under it (the name keeps the position of its first occurrence), or
//! appends it when it is new.

use vstd::prelude::*;

verus! {

/// The abstract contents of a header map: (name, value) pairs in order.
pub type HeaderSeq = Seq<(Seq<char>, Seq<u8>)>;

/// ASCII lower-casing of one character; other characters are unchanged.
pub open spec fn ascii_lower(c: char) -> char {
    if 'A' <= c && c <= 'Z' {
        ((c as int) + 32) as char
    } else {
        c
    }
}

/// Two texts are equal when ASCII letters are compared without regard to case.
pub open spec fn ascii_case_equal(a: Seq<char>, b: Seq<char>) -> bool {
    &&& a.len() == b.len()
    &&& forall|i: int| 0 <= i < a.len() ==> #[trigger] ascii_lower(a[i]) == ascii_lower(b[i])
}

/// The eight hop-by-hop header names (RFC 2616, section 13.5.1); every other
/// header is end-to-end.
pub open spec fn hop_names() -> Seq<Seq<char>> {
    seq![
        "Connection"@,
        "Keep-Alive"@,
        "Proxy-Authenticate"@,
        "Proxy-Authorization"@,
        "TE"@,
        "Trailer"@,
        "Transfer-Encoding"@,
        "Upgrade"@,
    ]
}

/// A name is hop-by-hop when it matches one of the hop-by-hop names, ignoring ASCII case.
pub open spec fn is_hop_name(name: Seq<char>) -> bool {
    exists|i: int| 0 <= i < hop_names().len() && ascii_case_equal(#[trigger] hop_names()[i], name)
}

/// Compares a text with another, ignoring ASCII case (`unicase::Ascii` equality).
/// Claimed: the result is `ascii_case_equal` of the two texts, which is what
/// `str::eq_ignore_ascii_case`, called by `unicase`, computes.
#[verifier::external_body]
fn unicase_ascii_eq(pattern: &str, name: &str) -> (res: bool)
    ensures
        res == ascii_case_equal(pattern@, name@),
{
    unicase::Ascii::new(pattern) == name
}

fn hop_name(i: usize) -> (s: &'static str)
    requires
        i < 8,
    ensures
        s@ == hop_names()[i as int],
{
    if i == 0 {
        "Connection"
    } else if i == 1 {
        "Keep-Alive"
    } else if i == 2 {
        "Proxy-Authenticate"
    } else if i == 3 {
        "Proxy-Authorization"
    } else if i == 4 {
        "TE"
    } else if i == 5 {
        "Trailer"
    } else if i == 6 {
        "Transfer-Encoding"
    } else {
        "Upgrade"
    }
}

/// Whether `name` is a hop-by-hop header name (compared without regard to ASCII case).
pub fn is_hop_header(name: &str) -> (res: bool)
    ensures
        res == is_hop_name(name@),
{
    let mut i: usize = 0;
    while i < 8
        invariant
            i <= 8,
            hop_names().len() == 8,
            forall|j: int| 0 <= j < i ==> !ascii_case_equal(#[trigger] hop_names()[j], name@),
        decreases 8 - i,
    {
        if unicase_ascii_eq(hop_name(i), name) {
            return true;
        }
        i = i + 1;
    }
    false
}

/// ASCII case-insensitive equality is symmetric and transitive.
pub proof fn lemma_ascii_case_equal_trans(a: Seq<char>, b: Seq<char>, c: Seq<char>)
    requires
        ascii_case_equal(a, b),
        ascii_case_equal(b, c),
    ensures
        ascii_case_equal(a, c),
        ascii_case_equal(c, a),
{
    assert forall|i: int| 0 <= i < a.len() implies #[trigger] ascii_lower(a[i]) == ascii_lower(c[i]) by {
        assert(ascii_lower(a[i]) == ascii_lower(b[i]));
        assert(ascii_lower(b[i]) == ascii_lower(c[i]));
    }
    assert forall|i: int| 0 <= i < c.len() implies #[trigger] ascii_lower(c[i]) == ascii_lower(a[i]) by {
        assert(ascii_lower(a[i]) == ascii_lower(b[i]));
        assert(ascii_lower(b[i]) == ascii_lower(c[i]));
    }
}

/// Whether a header name is hop-by-hop does not depend on the case of its ASCII letters.
pub proof fn law_hop_header_ignores_case(a: Seq<char>, b: Seq<char>)
    requires
        ascii_case_equal(a, b),
    ensures
        is_hop_name(a) == is_hop_name(b),
{
    if is_hop_name(a) {
        let i = choose|i: int| 0 <= i < hop_names().len() && ascii_case_equal(#[trigger] hop_names()[i], a);
        lemma_ascii_case_equal_trans(hop_names()[i], a, b);
    }
    if is_hop_name(b) {
        let i = choose|i: int| 0 <= i < hop_names().len() && ascii_case_equal(#[trigger] hop_names()[i], b);
        assert(ascii_case_equal(b, a)) by {
            assert forall|j: int| 0 <= j < b.len() implies #[trigger] ascii_lower(b[j]) == ascii_lower(a[j]) by {
                assert(ascii_lower(a[j]) == ascii_lower(b[j]));
            }
        }
        lemma_ascii_case_equal_trans(hop_names()[i], b, a);
    }
}

// ---------------------------------------------------------------------------
// The header multimap model.
// ---------------------------------------------------------------------------

/// Some field of `h` carries the name `k`.
pub open spec fn has_name(h: HeaderSeq, k: Seq<char>) -> bool {
    exists|i: int| 0 <= i < h.len() && (#[trigger] h[i]).0 == k
}

/// The value of the first field named `k`, if any.
pub open spec fn first_value(h: HeaderSeq, k: Seq<char>) -> Option<Seq<u8>>
    decreases h.len(),
{
    if h.len() == 0 {
        None
    } else {
        let r = first_value(h.drop_last(), k);
        if r is Some {
            r
        } else if h.last().0 == k {
            Some(h.last().1)
        } else {
            None
        }
    }
}

/// `h` with the first field named `k` given the value `v` and every later field named `k` dropped.
pub open spec fn replace_first(h: HeaderSeq, k: Seq<char>, v: Seq<u8>) -> HeaderSeq
    decreases h.len(),
{
    if h.len() == 0 {
        h
    } else {
        let p = h.drop_last();
        let r = replace_first(p, k, v);
        if h.last().0 == k {
            if has_name(p, k) {
                r
            } else {
                r.push((k, v))
            }
        } else {
            r.push(h.last())
        }
    }
}

/// The header map after inserting `v` under `k`: every earlier value of `k` is replaced.
pub open spec fn inserted(h: HeaderSeq, k: Seq<char>, v: Seq<u8>) -> HeaderSeq {
    if has_name(h, k) {
        replace_first(h, k, v)
    } else {
        h.push((k, v))
    }
}

/// The fields of `h` that are not hop-by-hop, in order.
pub open spec fn without_hop(h: HeaderSeq) -> HeaderSeq
    decreases h.len(),
{
    if h.len() == 0 {
        h
    } else {
        let r = without_hop(h.drop_last());
        if is_hop_name(h.last().0) {
            r
        } else {
            r.push(h.last())
        }
    }
}

/// The values stored under `k`, in order.
pub open spec fn values_of(h: HeaderSeq, k: Seq<char>) -> Seq<Seq<u8>>
    decreases h.len(),
{
    if h.len() == 0 {
        Seq::empty()
    } else {
        let r = values_of(h.drop_last(), k);
        if h.last().0 == k {
            r.push(h.last().1)
        } else {
            r
        }
    }
}

/// Fields with equal names stand together, as a header map yields them.
pub open spec fn grouped(h: HeaderSeq) -> bool {
    forall|i: int, j: int, l: int|
        #![trigger h[i], h[j], h[l]]
        0 <= i < j < l < h.len() && h[i].0 == h[l].0 ==> h[j].0 == h[i].0
}

/// The position of the last field named `k` (`-1` when there is none).
pub open spec fn last_index(h: HeaderSeq, k: Seq<char>) -> int
    decreases h.len(),
{
    if h.len() == 0 {
        -1
    } else if h.last().0 == k {
        h.len() - 1
    } else {
        last_index(h.drop_last(), k)
    }
}

/// The header map after appending `v` under `k`: the field follows the last
/// value of `k`, or ends the fields when `k` is new.
pub open spec fn appended(h: HeaderSeq, k: Seq<char>, v: Seq<u8>) -> HeaderSeq {
    if has_name(h, k) {
        h.insert(last_index(h, k) + 1, (k, v))
    } else {
        h.push((k, v))
    }
}

/// No field is hop-by-hop.
pub open spec fn no_hop(h: HeaderSeq) -> bool {
    forall|i: int| 0 <= i < h.len() ==> !is_hop_name((#[trigger] h[i]).0)
}

/// Appending a field adds exactly its name.
pub proof fn lemma_has_name_push(h: HeaderSeq, e: (Seq<char>, Seq<u8>), n: Seq<char>)
    ensures
        has_name(h.push(e), n) == (has_name(h, n) || e.0 == n),
{
    let s = h.push(e);
    if has_name(h, n) {
        let i = choose|i: int| 0 <= i < h.len() && (#[trigger] h[i]).0 == n;
        assert(s[i] == h[i]);
    }
    if e.0 == n {
        assert(s[h.len() as int] == e);
    }
    if has_name(s, n) {
        let i = choose|i: int| 0 <= i < s.len() && (#[trigger] s[i]).0 == n;
        if i < h.len() {
            assert(h[i] == s[i]);
        }
    }
}

/// A name has a first value exactly when it occurs.
pub proof fn lemma_first_value_some(h: HeaderSeq, k: Seq<char>)
    ensures
        (first_value(h, k) is Some) == has_name(h, k),
    decreases h.len(),
{
    if h.len() > 0 {
        let p = h.drop_last();
        lemma_first_value_some(p, k);
        assert(h == p.push(h.last()));
        lemma_has_name_push(p, h.last(), k);
    } else {
        assert(!has_name(h, k));
    }
}

/// Replacing the value of an absent name changes nothing.
pub proof fn lemma_replace_first_absent(h: HeaderSeq, k: Seq<char>, v: Seq<u8>)
    requires
        !has_name(h, k),
    ensures
        replace_first(h, k, v) == h,
    decreases h.len(),
{
    if h.len() > 0 {
        let p = h.drop_last();
        assert(h == p.push(h.last()));
        lemma_has_name_push(p, h.last(), k);
        lemma_replace_first_absent(p, k, v);
    }
}

/// Replacing a value keeps exactly the names that were present.
pub proof fn lemma_replace_first_names(h: HeaderSeq, k: Seq<char>, v: Seq<u8>, n: Seq<char>)
    ensures
        has_name(replace_first(h, k, v), n) == has_name(h, n),
    decreases h.len(),
{
    if h.len() > 0 {
        let p = h.drop_last();
        let r = replace_first(p, k, v);
        assert(h == p.push(h.last()));
        lemma_has_name_push(p, h.last(), n);
        lemma_replace_first_names(p, k, v, n);
        if h.last().0 == k {
            if has_name(p, k) {
                lemma_replace_first_names(p, k, v, k);
            } else {
                lemma_has_name_push(r, (k, v), n);
            }
        } else {
            lemma_has_name_push(r, h.last(), n);
        }
    }
}

/// After an insert, exactly the earlier names and the inserted name are present.
pub proof fn lemma_inserted_names(h: HeaderSeq, k: Seq<char>, v: Seq<u8>, n: Seq<char>)
    ensures
        has_name(inserted(h, k, v), n) == (has_name(h, n) || n == k),
{
    if has_name(h, k) {
        lemma_replace_first_names(h, k, v, n);
    } else {
        lemma_has_name_push(h, (k, v), n);
    }
}

/// Appending a field only gives a first value to a name that had none.
pub proof fn lemma_first_value_push(h: HeaderSeq, e: (Seq<char>, Seq<u8>), n: Seq<char>)
    ensures
        first_value(h.push(e), n) == (if first_value(h, n) is Some {
            first_value(h, n)
        } else if e.0 == n {
            Some(e.1)
        } else {
            None
        }),
{
    assert(h.push(e).drop_last() == h);
}

/// After a replacement the replaced name (if present) has the new value; other names keep theirs.
pub proof fn lemma_replace_first_values(h: HeaderSeq, k: Seq<char>, v: Seq<u8>, n: Seq<char>)
    ensures
        first_value(replace_first(h, k, v), n) == (if n == k {
            if has_name(h, k) {
                Some(v)
            } else {
                None
            }
        } else {
            first_value(h, n)
        }),
    decreases h.len(),
{
    if h.len() > 0 {
        let p = h.drop_last();
        let e = h.last();
        let r = replace_first(p, k, v);
        assert(h == p.push(e));
        lemma_has_name_push(p, e, k);
        lemma_replace_first_values(p, k, v, n);
        lemma_first_value_push(p, e, n);
        lemma_first_value_some(p, n);
        lemma_first_value_some(p, k);
        if e.0 == k {
            if has_name(p, k) {
            } else {
                lemma_first_value_push(r, (k, v), n);
            }
        } else {
            lemma_first_value_push(r, e, n);
        }
    } else {
        assert(!has_name(h, k));
    }
}

/// Looking up the inserted name yields the inserted value; other names are unaffected.
pub proof fn lemma_inserted_values(h: HeaderSeq, k: Seq<char>, v: Seq<u8>, n: Seq<char>)
    ensures
        first_value(inserted(h, k, v), n) == (if n == k {
            Some(v)
        } else {
            first_value(h, n)
        }),
{
    if has_name(h, k) {
        lemma_replace_first_values(h, k, v, n);
    } else {
        lemma_first_value_push(h, (k, v), n);
        lemma_first_value_some(h, k);
    }
}

/// Dropping hop-by-hop headers keeps exactly the other names.
pub proof fn lemma_without_hop_names(h: HeaderSeq, n: Seq<char>)
    ensures
        has_name(without_hop(h), n) == (has_name(h, n) && !is_hop_name(n)),
    decreases h.len(),
{
    if h.len() > 0 {
        let p = h.drop_last();
        let e = h.last();
        assert(h == p.push(e));
        lemma_without_hop_names(p, n);
        lemma_has_name_push(p, e, n);
        if !is_hop_name(e.0) {
            lemma_has_name_push(without_hop(p), e, n);
        }
    } else {
        assert(!has_name(h, n));
    }
}

/// Dropping hop-by-hop headers leaves no hop-by-hop header, and keeps every other name that occurs.
pub proof fn law_without_hop_keeps_end_to_end_names(h: HeaderSeq, n: Seq<char>)
    ensures
        no_hop(without_hop(h)),
        has_name(without_hop(h), n) == (has_name(h, n) && !is_hop_name(n)),
{
    lemma_without_hop_names(h, n);
    let r = without_hop(h);
    assert forall|i: int| 0 <= i < r.len() implies !is_hop_name((#[trigger] r[i]).0) by {
        lemma_without_hop_names(h, r[i].0);
        assert(has_name(r, r[i].0));
    }
}

/// Every value of an end-to-end header is kept, in order.
pub proof fn law_without_hop_keeps_values(h: HeaderSeq, n: Seq<char>)
    requires
        !is_hop_name(n),
    ensures
        values_of(without_hop(h), n) == values_of(h, n),
    decreases h.len(),
{
    if h.len() > 0 {
        let p = h.drop_last();
        let e = h.last();
        law_without_hop_keeps_values(p, n);
        if !is_hop_name(e.0) {
            assert(without_hop(h).drop_last() == without_hop(p));
        }
    }
}

/// An end-to-end header keeps its first value.
pub proof fn law_without_hop_keeps_first_value(h: HeaderSeq, n: Seq<char>)
    requires
        !is_hop_name(n),
    ensures
        first_value(without_hop(h), n) == first_value(h, n),
    decreases h.len(),
{
    if h.len() > 0 {
        let p = h.drop_last();
        let e = h.last();
        law_without_hop_keeps_first_value(p, n);
        if !is_hop_name(e.0) {
            lemma_first_value_push(without_hop(p), e, n);
        }
    }
}

/// Fields without hop-by-hop names are left as they are.
pub proof fn lemma_without_hop_identity(h: HeaderSeq)
    requires
        no_hop(h),
    ensures
        without_hop(h) == h,
    decreases h.len(),
{
    if h.len() > 0 {
        let p = h.drop_last();
        assert(no_hop(p)) by {
            assert forall|i: int| 0 <= i < p.len() implies !is_hop_name((#[trigger] p[i]).0) by {
                assert(p[i] == h[i]);
            }
        }
        assert(!is_hop_name(h[h.len() - 1].0));
        lemma_without_hop_identity(p);
        assert(h == p.push(h.last()));
    }
}

/// Dropping hop-by-hop headers a second time changes nothing.
pub proof fn law_without_hop_idempotent(h: HeaderSeq)
    ensures
        without_hop(without_hop(h)) == without_hop(h),
{
    law_without_hop_keeps_end_to_end_names(h, Seq::empty());
    lemma_without_hop_identity(without_hop(h));
}

/// In grouped fields, appending the next end-to-end field to the
/// end-to-end fields before it places it last.
pub proof fn lemma_append_next_end_to_end(h: HeaderSeq, i: int)
    requires
        grouped(h),
        0 <= i < h.len(),
        !is_hop_name(h[i].0),
    ensures
        appended(without_hop(h.take(i)), h[i].0, h[i].1) == without_hop(h.take(i + 1)),
{
    let t = h.take(i + 1);
    assert(t.drop_last() =~= h.take(i));
    assert(t.last() == h[i]);
    let r = without_hop(h.take(i));
    let k = h[i].0;
    if has_name(r, k) {
        lemma_without_hop_names(h.take(i), k);
        let m = choose|m: int| 0 <= m < h.take(i).len() && (#[trigger] h.take(i)[m]).0 == k;
        assert(h[m] == h.take(i)[m]);
        assert(h[i - 1].0 == k) by {
            if m < i - 1 {
                assert(h[m].0 == h[i].0);
            }
        }
        let q = h.take(i);
        assert(q.drop_last() =~= h.take(i - 1));
        assert(q.last() == h[i - 1]);
        assert(r == without_hop(h.take(i - 1)).push(h[i - 1]));
        assert(last_index(r, k) == r.len() - 1);
        assert(r.insert(r.len() as int, (k, h[i].1)) =~= r.push((k, h[i].1)));
    }
}

// ---------------------------------------------------------------------------
// Header maps (`http::HeaderMap`).
// ---------------------------------------------------------------------------

#[verifier::external_type_specification]
#[verifier::external_body]
#[verifier::reject_recursive_types(T)]
pub struct ExHeaderMap<T>(http::HeaderMap<T>);

#[verifier::external_type_specification]
#[verifier::external_body]
pub struct ExHeaderValue(http::HeaderValue);

/// What a header map holds: its (name, value) pairs, in the order in which
/// `http::HeaderMap::iter` yields them.
pub uninterp spec fn header_fields(map: http::HeaderMap) -> Seq<(Seq<char>, Seq<u8>)>;

/// A character that may stand in a header name (the `http` crate's table of
/// header characters).
pub open spec fn token_char(c: char) -> bool {
    ||| c == '!' || c == '"' || c == '#' || c == '$' || c == '%' || c == '&' || c == '\''
    ||| c == '*' || c == '+' || c == '-' || c == '.'
    ||| ('0' <= c && c <= '9')
    ||| ('A' <= c && c <= 'Z')
    ||| c == '^' || c == '_' || c == '`'
    ||| ('a' <= c && c <= 'z')
    ||| c == '|' || c == '~'
}

/// A text that `http::HeaderName::from_bytes` accepts: 1 to 65535 header characters.
pub open spec fn header_name_valid(n: Seq<char>) -> bool {
    &&& 1 <= n.len() <= 65535
    &&& forall|i: int| 0 <= i < n.len() ==> token_char(#[trigger] n[i])
}

/// ASCII lower-casing of a text.
pub open spec fn lower_text(n: Seq<char>) -> Seq<char> {
    n.map_values(|c: char| ascii_lower(c))
}

/// A name as a header map stores it: valid, and in lower case.
pub open spec fn stored_name(n: Seq<char>) -> bool {
    header_name_valid(n) && lower_text(n) == n
}

/// The names that occur in header fields.
pub open spec fn field_names(h: HeaderSeq) -> Set<Seq<char>> {
    h.map_values(|f: (Seq<char>, Seq<u8>)| f.0).to_set()
}

/// How many distinct names occur in header fields.
pub open spec fn name_count(h: HeaderSeq) -> nat {
    field_names(h).len()
}

/// An empty header map (`http::HeaderMap::new`).
/// Claimed: it holds no field.
#[verifier::external_body]
pub(crate) fn header_map_new() -> (res: http::HeaderMap)
    ensures
        header_fields(res) == Seq::<(Seq<char>, Seq<u8>)>::empty(),
{
    http::HeaderMap::new()
}

/// The first value stored under a name (`http::HeaderMap::get`).
/// Claimed, from the crate's source: the name is looked up in ASCII lower
/// case (a text that is no valid name is found nowhere, as every stored name
/// is valid), and the first of its values in iteration order is returned.
#[verifier::external_body]
pub(crate) fn header_map_get(map: &http::HeaderMap, name: &str) -> (res: Option<Vec<u8>>)
    ensures
        match res {
            Some(v) => first_value(header_fields(*map), lower_text(name@)) == Some(v@),
            None => first_value(header_fields(*map), lower_text(name@)) is None,
        },
{
    map.get(name).map(|v| v.as_bytes().to_vec())
}

/// Inserts a value under a name (`http::HeaderMap::insert`, the name made by
/// `HeaderName::from_bytes` and the value by `HeaderValue::from_bytes`).
/// Claimed, from the crate's source: the name is stored in lower case; when
/// it is present, its first value is replaced in place and its other values
/// are dropped, else the field is appended. The map grows without reaching
/// its maximal size while it holds fewer than 6554 names (the insert panics
/// when that size is reached).
#[verifier::external_body]
pub(crate) fn header_map_insert(map: &mut http::HeaderMap, name: &str, value: Vec<u8>)
    requires
        header_name_valid(name@),
        valid_value(value@),
        name_count(header_fields(*old(map))) < 6554,
    ensures
        header_fields(*final(map)) == inserted(header_fields(*old(map)), lower_text(name@), value@),
{
    let name = http::header::HeaderName::from_bytes(name.as_bytes()).unwrap();
    let value = http::HeaderValue::from_bytes(value.as_slice()).unwrap();
    map.insert(name, value);
}

/// Appends a value under a name (`http::HeaderMap::append`, the name made by
/// `HeaderName::from_bytes` and the value by `HeaderValue::from_bytes`).
/// Claimed, from the crate's source: the name is stored in lower case; when
/// it is present, the value joins the end of its values, else the field is
/// appended. As for `insert`, the map has room while it holds fewer than
/// 6554 names (the append panics when its maximal size is reached).
#[verifier::external_body]
pub(crate) fn header_map_append(map: &mut http::HeaderMap, name: &str, value: Vec<u8>)
    requires
        header_name_valid(name@),
        valid_value(value@),
        name_count(header_fields(*old(map))) < 6554,
    ensures
        header_fields(*final(map)) == appended(header_fields(*old(map)), lower_text(name@), value@),
{
    let name = http::header::HeaderName::from_bytes(name.as_bytes()).unwrap();
    let value = http::HeaderValue::from_bytes(value.as_slice()).unwrap();
    map.append(name, value);
}

/// The number of distinct names in a header map (`http::HeaderMap::keys_len`).
/// Claimed, from the crate's source: it is the number of entries, one per name.
#[verifier::external_body]
pub(crate) fn header_map_name_count(map: &http::HeaderMap) -> (res: usize)
    ensures
        res as nat == name_count(header_fields(*map)),
{
    map.keys_len()
}

/// How many distinct names a header map holds; the functions that build
/// header maps from a map need fewer than their stated number of names.
pub fn header_name_count(map: &http::HeaderMap) -> (res: usize)
    ensures
        res as nat == name_count(header_fields(*map)),
{
    header_map_name_count(map)
}

/// The fields of a header map, in iteration order (`http::HeaderMap::iter`),
/// each as its name's text and its value's bytes.
/// Claimed, from the crate's source: they are what the map holds, and, as
/// `HeaderName` and `HeaderValue` keep them, the names are valid and in lower
/// case and the values are valid header values; the values of one name
/// stand together (the map yields each entry's values in turn).
#[verifier::external_body]
pub(crate) fn header_map_fields(map: &http::HeaderMap) -> (res: Vec<(String, Vec<u8>)>)
    ensures
        res@.map_values(|f: (String, Vec<u8>)| (f.0@, f.1@)) == header_fields(*map),
        forall|i: int| 0 <= i < res@.len() ==> stored_name((#[trigger] res@[i]).0@) && valid_value(res@[i].1@),
        grouped(res@.map_values(|f: (String, Vec<u8>)| (f.0@, f.1@))),
{
    map.iter().map(|(k, v)| (k.as_str().to_string(), v.as_bytes().to_vec())).collect()
}

/// A name occurs in header fields exactly when it is among their names.
pub proof fn lemma_field_names(h: HeaderSeq, n: Seq<char>)
    ensures
        field_names(h).contains(n) == has_name(h, n),
        field_names(h).finite(),
{
    let m = h.map_values(|f: (Seq<char>, Seq<u8>)| f.0);
    vstd::seq_lib::seq_to_set_is_finite(m);
    if has_name(h, n) {
        let i = choose|i: int| 0 <= i < h.len() && (#[trigger] h[i]).0 == n;
        assert(m[i] == n);
    }
    if m.contains(n) {
        let i = choose|i: int| 0 <= i < m.len() && m[i] == n;
        assert(h[i].0 == n);
    }
}

/// Fields whose names all occur in `h` have no more distinct names than `h`.
pub proof fn lemma_name_count_le(g: HeaderSeq, h: HeaderSeq)
    requires
        forall|n: Seq<char>| has_name(g, n) ==> has_name(h, n),
    ensures
        name_count(g) <= name_count(h),
{
    assert forall|n: Seq<char>| field_names(g).contains(n) implies field_names(h).contains(n) by {
        lemma_field_names(g, n);
        lemma_field_names(h, n);
    }
    lemma_field_names(h, Seq::empty());
    vstd::set_lib::lemma_len_subset(field_names(g), field_names(h));
}

/// Inserting adds at most one name.
pub proof fn lemma_inserted_name_count(h: HeaderSeq, k: Seq<char>, v: Seq<u8>)
    ensures
        name_count(inserted(h, k, v)) <= name_count(h) + 1,
{
    let r = inserted(h, k, v);
    assert forall|n: Seq<char>| field_names(r).contains(n) implies field_names(h).insert(k).contains(n) by {
        lemma_field_names(r, n);
        lemma_field_names(h, n);
        lemma_inserted_names(h, k, v, n);
    }
    lemma_field_names(h, k);
    vstd::set::axiom_set_insert_len(field_names(h), k);
    lemma_field_names(r, k);
    vstd::set_lib::lemma_len_subset(field_names(r), field_names(h).insert(k));
}

/// Dropping hop-by-hop headers from a prefix of `h` leaves no more names than `h` has.
pub proof fn lemma_without_hop_name_count(h: HeaderSeq, i: int)
    requires
        0 <= i <= h.len(),
    ensures
        name_count(without_hop(h.take(i))) <= name_count(h),
{
    let p = h.take(i);
    assert forall|n: Seq<char>| has_name(without_hop(p), n) implies has_name(h, n) by {
        lemma_without_hop_names(p, n);
        let j = choose|j: int| 0 <= j < p.len() && (#[trigger] p[j]).0 == n;
        assert(h[j] == p[j]);
    }
    lemma_name_count_le(without_hop(p), h);
}

/// A name of lower-case letters and dashes is stored as written.
pub proof fn lemma_lower_dash_name(n: Seq<char>)
    requires
        1 <= n.len() <= 65535,
        forall|i: int| 0 <= i < n.len() ==> ('a' <= #[trigger] n[i] && n[i] <= 'z') || n[i] == '-',
    ensures
        stored_name(n),
{
    assert(lower_text(n) =~= n);
}

/// The names that the proxy looks up or sets are valid and stored as written.
pub proof fn lemma_proxy_names_stored()
    ensures
        stored_name("host"@),
        stored_name("x-forwarded-for"@),
        stored_name("location"@),
        stored_name("proxy-authorization"@),
        stored_name("authorization"@),
{
    reveal_strlit("host");
    reveal_strlit("x-forwarded-for");
    reveal_strlit("location");
    reveal_strlit("proxy-authorization");
    reveal_strlit("authorization");
    lemma_lower_dash_name("host"@);
    lemma_lower_dash_name("x-forwarded-for"@);
    lemma_lower_dash_name("location"@);
    lemma_lower_dash_name("proxy-authorization"@);
    lemma_lower_dash_name("authorization"@);
}

/// Returns a copy of the headers without the hop-by-hop headers: every
/// other field is appended, in order, to a fresh header map.
pub fn remove_hop_headers(headers: &http::HeaderMap) -> (res: http::HeaderMap)
    requires
        name_count(header_fields(*headers)) < 6554,
    ensures
        header_fields(res) == without_hop(header_fields(*headers)),
{
    let fields = header_map_fields(headers);
    let ghost h = header_fields(*headers);
    let mut result = header_map_new();
    let n = fields.len();
    let mut i: usize = 0;
    assert(without_hop(h.take(0)) =~= Seq::<(Seq<char>, Seq<u8>)>::empty());
    while i < n
        invariant
            n == fields@.len(),
            h.len() == n,
            fields@.map_values(|f: (String, Vec<u8>)| (f.0@, f.1@)) == h,
            forall|j: int| 0 <= j < n ==> stored_name((#[trigger] fields@[j]).0@) && valid_value(fields@[j].1@),
            grouped(h),
            name_count(h) < 6554,
            i <= n,
            header_fields(result) == without_hop(h.take(i as int)),
        decreases n - i,
    {
        let ghost t = h.take(i as int + 1);
        assert(t.drop_last() =~= h.take(i as int));
        assert(t.last() == h[i as int]);
        assert(h[i as int] == (fields@[i as int].0@, fields@[i as int].1@));
        let name = fields[i].0.as_str();
        if !is_hop_header(name) {
            let value = fields[i].1.clone();
            assert(value@ =~= fields@[i as int].1@);
            proof {
                lemma_without_hop_name_count(h, i as int);
                lemma_append_next_end_to_end(h, i as int);
            }
            header_map_append(&mut result, name, value);
        }
        i = i + 1;
    }
    assert(h.take(n as int) =~= h);
    result
}

// ---------------------------------------------------------------------------
// Header values.
// ---------------------------------------------------------------------------

/// A byte that may stand in a header value: visible ASCII, space, tab, or
/// any byte from 128 on (`http::HeaderValue`'s rule).
pub open spec fn valid_value_byte(b: u8) -> bool {
    (b >= 32 && b != 127) || b == 9
}

/// A byte that a header value may hold for it to be read as text: visible
/// ASCII, space or tab.
pub open spec fn visible_ascii_byte(b: u8) -> bool {
    (b >= 32 && b < 127) || b == 9
}

/// Every byte may stand in a header value.
pub open spec fn valid_value(v: Seq<u8>) -> bool {
    forall|i: int| 0 <= i < v.len() ==> valid_value_byte(#[trigger] v[i])
}

/// Every byte is visible ASCII, space or tab.
pub open spec fn visible_ascii(v: Seq<u8>) -> bool {
    forall|i: int| 0 <= i < v.len() ==> visible_ascii_byte(#[trigger] v[i])
}

/// The characters of ASCII bytes.
pub open spec fn ascii_text(v: Seq<u8>) -> Seq<char> {
    v.map_values(|b: u8| b as char)
}

/// The bytes of a header value built from a text (`http::HeaderValue::from_str`).
/// Claimed, from the crate's source: the text is accepted exactly when each
/// byte of its UTF-8 encoding may stand in a header value, and the value
/// holds those bytes.
#[verifier::external_body]
pub(crate) fn header_value_from_str(text: &str) -> (res: Option<Vec<u8>>)
    ensures
        (res is Some) == valid_value(vstd::utf8::encode_utf8(text@)),
        res matches Some(v) ==> v@ == vstd::utf8::encode_utf8(text@),
{
    match http::HeaderValue::from_str(text) {
        Ok(v) => Some(v.as_bytes().to_vec()),
        Err(_) => None,
    }
}

/// A header value read as text (`http::HeaderValue::to_str`).
/// Claimed, from the crate's source: the value reads as text exactly when
/// every byte is visible ASCII, space or tab, and the text holds those bytes
/// as characters.
#[verifier::external_body]
pub(crate) fn header_value_to_str(value: &[u8]) -> (res: Option<String>)
    ensures
        (res is Some) == visible_ascii(value@),
        res matches Some(s) ==> s@ == ascii_text(value@),
{
    match http::HeaderValue::from_bytes(value) {
        Ok(v) => match v.to_str() {
            Ok(s) => Some(s.to_string()),
            Err(_) => None,
        },
        Err(_) => None,
    }
}

/// The UTF-8 encoding of a visible ASCII text is a valid header value.
pub proof fn lemma_visible_text_valid(t: Seq<char>)
    requires
        crate::uri::visible_text(t),
    ensures
        valid_value(vstd::utf8::encode_utf8(t)),
{
    assert(vstd::utf8::is_ascii_chars(t));
    vstd::utf8::is_ascii_chars_encode_utf8(t);
    let e = vstd::utf8::encode_utf8(t);
    assert forall|i: int| 0 <= i < e.len() implies valid_value_byte(#[trigger] e[i]) by {
        assert(e[i] == t[i] as u8);
        assert('!' <= t[i] && t[i] <= '~');
    }
}

/// Whether a text may be the value of a header field.
pub fn valid_header_text(text: &str) -> (res: bool)
    ensures
        res == valid_value(vstd::utf8::encode_utf8(text@)),
{
    header_value_from_str(text).is_some()
}

/// Inserting a name that is not hop-by-hop into headers without
/// hop-by-hop fields leaves none.
pub proof fn lemma_inserted_no_hop(h: HeaderSeq, k: Seq<char>, v: Seq<u8>)
    requires
        no_hop(h),
        !is_hop_name(k),
    ensures
        no_hop(inserted(h, k, v)),
{
    let r = inserted(h, k, v);
    assert forall|i: int| 0 <= i < r.len() implies !is_hop_name((#[trigger] r[i]).0) by {
        let n = r[i].0;
        assert(has_name(r, n));
        lemma_inserted_names(h, k, v, n);
        if has_name(h, n) {
            let j = choose|j: int| 0 <= j < h.len() && (#[trigger] h[j]).0 == n;
        }
    }
}

/// The names `host`, `x-forwarded-for` and `location` are not hop-by-hop.
pub proof fn lemma_forwarded_names_not_hop()
    ensures
        !is_hop_name("host"@),
        !is_hop_name("x-forwarded-for"@),
        !is_hop_name("location"@),
{
    reveal_strlit("Connection");
    reveal_strlit("Keep-Alive");
    reveal_strlit("Proxy-Authenticate");
    reveal_strlit("Proxy-Authorization");
    reveal_strlit("TE");
    reveal_strlit("Trailer");
    reveal_strlit("Transfer-Encoding");
    reveal_strlit("Upgrade");
    reveal_strlit("host");
    reveal_strlit("x-forwarded-for");
    reveal_strlit("location");
    assert forall|i: int| 0 <= i < hop_names().len() implies !ascii_case_equal(#[trigger] hop_names()[i], "host"@) by {
        assert(hop_names()[i].len() != 4);
    }
    assert forall|i: int| 0 <= i < hop_names().len() implies !ascii_case_equal(#[trigger] hop_names()[i], "x-forwarded-for"@) by {
        assert(hop_names()[i].len() != 15);
    }
    assert forall|i: int| 0 <= i < hop_names().len() implies !ascii_case_equal(#[trigger] hop_names()[i], "location"@) by {
        assert(hop_names()[i].len() != 8);
    }
}

} // verus!
