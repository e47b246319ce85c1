//! PKCS#11 (smart-card / YubiKey PIV) client certificates: RFC 7512 `pkcs11:`
//! URIs, their percent-decoding, the PKCS#11 module search, and the login plan
//! (PIN, token, object selectors) derived from a certificate and key URI.

use vstd::prelude::*;
use vstd::utf8::{decode_utf8, valid_utf8, is_continuation_byte};
use crate::text::{
    chars_of, contains, eq_str, extend, find_char_vec, has_prefix_str, lit, split, split_once,
    split_once_vec, split_vec, starts_with, string_of, strip_prefix, trim_start, trim_start_vec,
    views,
};

verus! {

// ---------------------------------------------------------------------------
// percent-decoding
// ---------------------------------------------------------------------------

/// Value of one hexadecimal digit.
pub open spec fn hex_digit(b: u8) -> Option<u8> {
    if 48 <= b <= 57 {
        Some((b - 48) as u8)
    } else if 97 <= b <= 102 {
        Some((b - 87) as u8)
    } else if 65 <= b <= 70 {
        Some((b - 55) as u8)
    } else {
        None
    }
}

/// `u8::from_str_radix` on the two bytes `[b1, b2]` with radix 16 (a leading
/// `+` is accepted, as std does).
pub open spec fn hex_pair(b1: u8, b2: u8) -> Option<u8> {
    if b1 == 43 {
        hex_digit(b2)
    } else {
        match (hex_digit(b1), hex_digit(b2)) {
            (Some(h), Some(l)) => Some((h * 16 + l) as u8),
            _ => None,
        }
    }
}

/// Percent-decoding from byte `i` on: `%XY` with a valid hex pair becomes the
/// byte it names; every other byte is kept.
pub open spec fn pct_from(b: Seq<u8>, i: int) -> Seq<u8>
    decreases b.len() - i,
{
    if i < 0 || i >= b.len() {
        Seq::empty()
    } else if b[i] == 37 && i + 2 < b.len() && hex_pair(b[i + 1], b[i + 2]) is Some {
        seq![hex_pair(b[i + 1], b[i + 2])->0] + pct_from(b, i + 3)
    } else {
        seq![b[i]] + pct_from(b, i + 1)
    }
}

/// How many `%XY` escapes decoding from byte `i` on replaces.
pub open spec fn escapes_from(b: Seq<u8>, i: int) -> nat
    decreases b.len() - i,
{
    if i < 0 || i >= b.len() {
        0
    } else if b[i] == 37 && i + 2 < b.len() && hex_pair(b[i + 1], b[i + 2]) is Some {
        1 + escapes_from(b, i + 3)
    } else {
        escapes_from(b, i + 1)
    }
}

proof fn lemma_pct_from_len(b: Seq<u8>, i: int)
    requires
        0 <= i <= b.len(),
    ensures
        pct_from(b, i).len() + 2 * escapes_from(b, i) == b.len() - i,
    decreases b.len() - i,
{
    if i < b.len() {
        if b[i] == 37 && i + 2 < b.len() && hex_pair(b[i + 1], b[i + 2]) is Some {
            lemma_pct_from_len(b, i + 3);
        } else {
            lemma_pct_from_len(b, i + 1);
        }
    }
}

/// Each decoded escape turns three bytes into one: the decoded bytes are the
/// string's UTF-8 bytes less two per escape, so never more.
pub proof fn decoding_shrinks_by_two_per_escape(s: Seq<char>)
    ensures
        pct_decode(s).len() + 2 * escapes_from(vstd::utf8::encode_utf8(s), 0)
            == vstd::utf8::encode_utf8(s).len(),
        pct_decode(s).len() <= vstd::utf8::encode_utf8(s).len(),
{
    lemma_pct_from_len(vstd::utf8::encode_utf8(s), 0);
}

/// The two bytes after a `%` are sliced out of the string before they are
/// parsed; that slice ends inside a multi-byte character (and slicing
/// panics) when the byte after them is a UTF-8 continuation byte.
pub open spec fn pct_panics_from(b: Seq<u8>, i: int) -> bool
    decreases b.len() - i,
{
    if i < 0 || i >= b.len() {
        false
    } else if b[i] == 37 && i + 2 < b.len() {
        if i + 3 < b.len() && is_continuation_byte(b[i + 3]) {
            true
        } else if hex_pair(b[i + 1], b[i + 2]) is Some {
            pct_panics_from(b, i + 3)
        } else {
            pct_panics_from(b, i + 1)
        }
    } else {
        pct_panics_from(b, i + 1)
    }
}

/// Percent-decoding of a string's UTF-8 bytes.
pub open spec fn pct_decode(s: Seq<char>) -> Seq<u8> {
    pct_from(vstd::utf8::encode_utf8(s), 0)
}

/// Whether decoding `s` would slice inside a character.
pub open spec fn pct_panics(s: Seq<char>) -> bool {
    pct_panics_from(vstd::utf8::encode_utf8(s), 0)
}

/// What `String::from_utf8_lossy` makes of a byte sequence.
pub uninterp spec fn utf8_lossy(b: Seq<u8>) -> Seq<char>;

/// `String::from_utf8_lossy(..).into_owned()`. Claimed: the result is named
/// by [`utf8_lossy`] of the bytes, and for valid UTF-8 it is exactly the
/// decoded text (std documents that valid input is returned unchanged). What
/// replaces invalid sequences is not stated.
#[verifier::external_body]
fn from_utf8_lossy(b: &[u8]) -> (r: String)
    ensures
        r@ == utf8_lossy(b@),
        valid_utf8(b@) ==> r@ == decode_utf8(b@),
{
    String::from_utf8_lossy(b).into_owned()
}

fn hex_digit_exec(b: u8) -> (r: Option<u8>)
    ensures
        r == hex_digit(b),
{
    if 48 <= b && b <= 57 {
        Some(b - 48)
    } else if 97 <= b && b <= 102 {
        Some(b - 87)
    } else if 65 <= b && b <= 70 {
        Some(b - 55)
    } else {
        None
    }
}

fn hex_pair_exec(b1: u8, b2: u8) -> (r: Option<u8>)
    ensures
        r == hex_pair(b1, b2),
{
    if b1 == 43 {
        hex_digit_exec(b2)
    } else {
        match (hex_digit_exec(b1), hex_digit_exec(b2)) {
            (Some(h), Some(l)) => Some(h * 16 + l),
            _ => None,
        }
    }
}

/// Percent-decode the bytes of `s` (`%XY` -> byte `0xXY`).
pub fn pct_decode_bytes(s: &str) -> (r: Vec<u8>)
    requires
        !pct_panics(s@),
    ensures
        r@ == pct_decode(s@),
{
    let b = s.as_bytes();
    let n = b.len();
    let ghost bs = b@;
    let mut out: Vec<u8> = Vec::new();
    let mut i: usize = 0;
    while i < n
        invariant
            bs == b@,
            n == bs.len(),
            i <= n,
            out@ + pct_from(bs, i as int) == pct_from(bs, 0),
            !pct_panics_from(bs, i as int),
        decreases n - i,
    {
        if b[i] == 37 && n - i > 2 {
            let d = hex_pair_exec(b[i + 1], b[i + 2]);
            match d {
                Some(v) => {
                    let ghost old_out = out@;
                    out.push(v);
                    assert(old_out + pct_from(bs, i as int) =~= out@ + pct_from(bs, i + 3));
                    i = i + 3;
                    continue;
                },
                None => {},
            }
        }
        let ghost old_out = out@;
        out.push(b[i]);
        assert(old_out + pct_from(bs, i as int) =~= out@ + pct_from(bs, i + 1));
        i = i + 1;
    }
    assert(out@ + pct_from(bs, n as int) =~= out@);
    out
}

/// Percent-decode `s` and read the bytes as (lossy) UTF-8.
pub fn pct_decode_str(s: &str) -> (r: String)
    requires
        !pct_panics(s@),
    ensures
        r@ == utf8_lossy(pct_decode(s@)),
        valid_utf8(pct_decode(s@)) ==> r@ == decode_utf8(pct_decode(s@)),
{
    let b = pct_decode_bytes(s);
    from_utf8_lossy(&b)
}

// ---------------------------------------------------------------------------
// URIs
// ---------------------------------------------------------------------------

pub open spec fn is_pkcs11_uri_spec(s: Seq<char>) -> bool {
    starts_with(trim_start(s), "pkcs11:"@)
}

/// Whether `s` (after leading whitespace) is a `pkcs11:` URI.
pub fn is_pkcs11_uri(s: &str) -> (r: bool)
    ensures
        r == is_pkcs11_uri_spec(s@),
{
    let t = trim_start_vec(&chars_of(s));
    has_prefix_str(&t, "pkcs11:")
}

/// The selectors a `pkcs11:` URI carries.
#[derive(Debug, Default)]
pub struct Pkcs11Uri {
    pub token: Option<String>,
    pub object: Option<String>,
    pub id: Option<Vec<u8>>,
    pub pin: Option<String>,
}

#[derive(Debug, PartialEq, Eq)]
pub enum Pkcs11UriError {
    /// The text does not start with `pkcs11:`.
    NotPkcs11,
}

/// The value of the last `key=value` attribute named `key` among `kvs`.
pub open spec fn last_value(kvs: Seq<Seq<char>>, key: Seq<char>) -> Option<Seq<char>>
    decreases kvs.len(),
{
    if kvs.len() == 0 {
        None
    } else {
        match split_once(kvs.last(), '=') {
            Some((k, v)) => if k == key {
                Some(v)
            } else {
                last_value(kvs.drop_last(), key)
            },
            None => last_value(kvs.drop_last(), key),
        }
    }
}

/// Every attribute named `key` among `kvs` percent-decodes without panicking.
pub open spec fn values_decode(kvs: Seq<Seq<char>>, key: Seq<char>) -> bool {
    forall|i: int|
        0 <= i < kvs.len() ==> match split_once(#[trigger] kvs[i], '=') {
            Some((k, v)) => k == key ==> !pct_panics(v),
            None => true,
        }
}

/// The part after `pkcs11:` (leading whitespace ignored).
pub open spec fn uri_body(uri: Seq<char>) -> Seq<char> {
    strip_prefix(trim_start(uri), "pkcs11:"@)->0
}

/// The path attributes (`;`-separated, before any `?`).
pub open spec fn path_attrs(uri: Seq<char>) -> Seq<Seq<char>> {
    match split_once(uri_body(uri), '?') {
        Some((p, _)) => split(p, ';'),
        None => split(uri_body(uri), ';'),
    }
}

/// The query attributes (`&`-separated, after the first `?`).
pub open spec fn query_attrs(uri: Seq<char>) -> Seq<Seq<char>> {
    match split_once(uri_body(uri), '?') {
        Some((_, q)) => split(q, '&'),
        None => Seq::empty(),
    }
}

/// The values of a URI decode without panicking.
pub open spec fn uri_decodes(uri: Seq<char>) -> bool {
    &&& values_decode(path_attrs(uri), "token"@)
    &&& values_decode(path_attrs(uri), "object"@)
    &&& values_decode(path_attrs(uri), "id"@)
    &&& values_decode(query_attrs(uri), "pin-value"@)
}

/// A decoded text attribute, as [`pct_decode_str`] gives it.
pub open spec fn decoded(v: Option<Seq<char>>) -> Option<Seq<char>> {
    match v {
        Some(x) => Some(utf8_lossy(pct_decode(x))),
        None => None,
    }
}

/// A decoded byte attribute, as [`pct_decode_bytes`] gives it.
pub open spec fn decoded_bytes(v: Option<Seq<char>>) -> Option<Seq<u8>> {
    match v {
        Some(x) => Some(pct_decode(x)),
        None => None,
    }
}

pub open spec fn opt_view(o: Option<String>) -> Option<Seq<char>> {
    match o {
        Some(s) => Some(s@),
        None => None,
    }
}

pub open spec fn opt_bytes(o: Option<Vec<u8>>) -> Option<Seq<u8>> {
    match o {
        Some(s) => Some(s@),
        None => None,
    }
}

/// What [`parse_pkcs11_uri`] makes of a URI: the last `token`, `object` and
/// `id` path attributes and the last `pin-value` query attribute, decoded.
pub open spec fn uri_matches(u: Pkcs11Uri, uri: Seq<char>) -> bool {
    &&& opt_view(u.token) == decoded(last_value(path_attrs(uri), "token"@))
    &&& opt_view(u.object) == decoded(last_value(path_attrs(uri), "object"@))
    &&& opt_bytes(u.id) == decoded_bytes(last_value(path_attrs(uri), "id"@))
    &&& opt_view(u.pin) == decoded(last_value(query_attrs(uri), "pin-value"@))
}

/// The PIN comes only from a `pin-value` query attribute after `?`: a URI
/// without a query carries none, whatever its path attributes say.
pub proof fn pin_only_from_the_query(uri: Seq<char>)
    requires
        split_once(uri_body(uri), '?') is None,
    ensures
        query_attrs(uri).len() == 0,
        decoded(last_value(query_attrs(uri), "pin-value"@)) is None,
{
}

proof fn lemma_last_value_step(kvs: Seq<Seq<char>>, i: int, key: Seq<char>)
    requires
        0 <= i < kvs.len(),
    ensures
        last_value(kvs.take(i + 1), key) == match split_once(kvs[i], '=') {
            Some((k, v)) => if k == key {
                Some(v)
            } else {
                last_value(kvs.take(i), key)
            },
            None => last_value(kvs.take(i), key),
        },
{
    assert(kvs.take(i + 1).drop_last() =~= kvs.take(i));
    assert(kvs.take(i + 1).last() == kvs[i]);
}

fn decode_value(v: &[char]) -> (r: String)
    requires
        !pct_panics(v@),
    ensures
        r@ == utf8_lossy(pct_decode(v@)),
{
    let s = string_of(v);
    pct_decode_str(s.as_str())
}

fn decode_value_bytes(v: &[char]) -> (r: Vec<u8>)
    requires
        !pct_panics(v@),
    ensures
        r@ == pct_decode(v@),
{
    let s = string_of(v);
    pct_decode_bytes(s.as_str())
}

/// Parse a `pkcs11:` URI into its token/object/id/pin selectors.
pub fn parse_pkcs11_uri(uri: &str) -> (r: Result<Pkcs11Uri, Pkcs11UriError>)
    requires
        is_pkcs11_uri_spec(uri@) ==> uri_decodes(uri@),
    ensures
        match r {
            Ok(u) => is_pkcs11_uri_spec(uri@) && uri_matches(u, uri@),
            Err(e) => !is_pkcs11_uri_spec(uri@) && e == Pkcs11UriError::NotPkcs11,
        },
{
    let t = trim_start_vec(&chars_of(uri));
    let body = match crate::text::strip_prefix_str(&t, "pkcs11:") {
        Some(b) => b,
        None => {
            return Err(Pkcs11UriError::NotPkcs11);
        },
    };
    let (path_part, query_part) = match split_once_vec(&body, '?') {
        Some((p, q)) => (p, Some(q)),
        None => (body, None),
    };
    proof {
        reveal_strlit("token");
        reveal_strlit("object");
        reveal_strlit("id");
    }
    let mut out = Pkcs11Uri { token: None, object: None, id: None, pin: None };
    let kvs = split_vec(&path_part, ';');
    let ghost ks = views(kvs@);
    assert(ks == path_attrs(uri@));
    let mut i: usize = 0;
    assert(ks.take(0) =~= Seq::<Seq<char>>::empty());
    while i < kvs.len()
        invariant
            ks == views(kvs@),
            ks == path_attrs(uri@),
            uri_decodes(uri@),
            i <= kvs@.len(),
            opt_view(out.token) == decoded(last_value(ks.take(i as int), "token"@)),
            opt_view(out.object) == decoded(last_value(ks.take(i as int), "object"@)),
            opt_bytes(out.id) == decoded_bytes(last_value(ks.take(i as int), "id"@)),
            out.pin is None,
        decreases kvs.len() - i,
    {
        proof {
            reveal_strlit("token");
            reveal_strlit("object");
            reveal_strlit("id");
            lemma_last_value_step(ks, i as int, "token"@);
            lemma_last_value_step(ks, i as int, "object"@);
            lemma_last_value_step(ks, i as int, "id"@);
            assert("token"@ != "object"@ && "token"@ != "id"@ && "object"@ != "id"@) by {
                assert("token"@.len() == 5 && "object"@.len() == 6 && "id"@.len() == 2);
            }
        }
        assert(ks[i as int] == kvs@[i as int]@);
        match split_once_vec(&kvs[i], '=') {
            Some((k, v)) => {
                if eq_str(&k, "token") {
                    out.token = Some(decode_value(&v));
                } else if eq_str(&k, "object") {
                    out.object = Some(decode_value(&v));
                } else if eq_str(&k, "id") {
                    out.id = Some(decode_value_bytes(&v));
                }
            },
            None => {},
        }
        i = i + 1;
    }
    assert(ks.take(kvs@.len() as int) =~= ks);
    let ghost path_done = (opt_view(out.token), opt_view(out.object), opt_bytes(out.id));
    match query_part {
        Some(q) => {
            let qs = split_vec(&q, '&');
            let ghost qv = views(qs@);
            assert(qv == query_attrs(uri@));
            let mut j: usize = 0;
            assert(qv.take(0) =~= Seq::<Seq<char>>::empty());
            while j < qs.len()
                invariant
                    qv == views(qs@),
                    qv == query_attrs(uri@),
                    uri_decodes(uri@),
                    j <= qs@.len(),
                    opt_view(out.pin) == decoded(last_value(qv.take(j as int), "pin-value"@)),
                    path_done == (opt_view(out.token), opt_view(out.object), opt_bytes(out.id)),
                decreases qs.len() - j,
            {
                proof {
                    lemma_last_value_step(qv, j as int, "pin-value"@);
                }
                assert(qv[j as int] == qs@[j as int]@);
                match split_once_vec(&qs[j], '=') {
                    Some((k, v)) => {
                        if eq_str(&k, "pin-value") {
                            out.pin = Some(decode_value(&v));
                        }
                    },
                    None => {},
                }
                j = j + 1;
            }
            assert(qv.take(qs@.len() as int) =~= qv);
        },
        None => {
            assert(query_attrs(uri@) =~= Seq::<Seq<char>>::empty());
        },
    }
    Ok(out)
}

} // verus!
