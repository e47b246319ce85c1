//! Standard base64 (with padding), as the `base64` crate's `STANDARD` engine
//! encodes and decodes it.

use vstd::prelude::*;
use base64::engine::general_purpose::STANDARD;
use base64::Engine;

verus! {

/// The standard alphabet: `A`-`Z`, `a`-`z`, `0`-`9`, `+`, `/` for the
/// sextets 0 to 63.
pub open spec fn b64_char(v: int) -> char {
    if v < 26 {
        (('A' as int) + v) as char
    } else if v < 52 {
        (('a' as int) + v - 26) as char
    } else if v < 62 {
        (('0' as int) + v - 52) as char
    } else if v == 62 {
        '+'
    } else {
        '/'
    }
}

/// The standard base64 text of `b` (RFC 4648): each group of three bytes
/// becomes four characters; a final group of one or two bytes becomes two
/// or three, padded with `=` to four.
pub open spec fn base64_encoded(b: Seq<u8>) -> Seq<char>
    decreases b.len(),
{
    if b.len() == 0 {
        Seq::empty()
    } else if b.len() == 1 {
        seq![b64_char(b[0] as int / 4), b64_char((b[0] as int % 4) * 16), '=', '=']
    } else if b.len() == 2 {
        seq![
            b64_char(b[0] as int / 4),
            b64_char((b[0] as int % 4) * 16 + b[1] as int / 16),
            b64_char((b[1] as int % 16) * 4),
            '=',
        ]
    } else {
        seq![
            b64_char(b[0] as int / 4),
            b64_char((b[0] as int % 4) * 16 + b[1] as int / 16),
            b64_char((b[1] as int % 16) * 4 + b[2] as int / 64),
            b64_char(b[2] as int % 64),
        ] + base64_encoded(b.skip(3))
    }
}

/// The bytes standard base64 text `s` decodes to: those whose encoding it
/// is, or `None` when it is the encoding of nothing (a character outside the
/// alphabet, a wrong length or padding, or set bits past the last byte).
pub open spec fn base64_decoded(s: Seq<char>) -> Option<Seq<u8>> {
    if exists|b: Seq<u8>| #[trigger] base64_encoded(b) == s {
        Some(choose|b: Seq<u8>| #[trigger] base64_encoded(b) == s)
    } else {
        None
    }
}

pub open spec fn opt_bytes(o: Option<Vec<u8>>) -> Option<Seq<u8>> {
    match o {
        Some(v) => Some(v@),
        None => None,
    }
}

/// `STANDARD.encode`. Claimed: the text is [`base64_encoded`] of the bytes. The
/// crate panics when the encoded length overflows `usize`; inputs up to half
/// the address space are far from that.
#[verifier::external_body]
pub fn base64_encode(b: &[u8]) -> (r: String)
    requires
        b@.len() <= usize::MAX / 2,
    ensures
        r@ == base64_encoded(b@),
{
    STANDARD.encode(b)
}

/// `STANDARD.decode` (padding required and canonical, no set trailing bits).
/// Claimed: it succeeds exactly on the texts that are the encoding of some
/// bytes ([`base64_decoded`]), and gives back the bytes encoded.
#[verifier::external_body]
pub fn base64_decode(s: &str) -> (r: Option<Vec<u8>>)
    ensures
        opt_bytes(r) == base64_decoded(s@),
        forall|b: Seq<u8>| #[trigger] base64_encoded(b) == s@ ==> opt_bytes(r) == Some(b),
{
    STANDARD.decode(s).ok()
}

} // verus!
