//! Reaching a running service: the loopback port it publishes in its lock
//! file (`pid:port`), and the 32-byte shared key handed over in base64.

use vstd::prelude::*;
use crate::encoding::{base64_decode, base64_decoded, base64_encoded};
use crate::text::{chars_of, digits_value, is_digit, split, split_vec, string_of, trim, trim_vec, views};

verus! {

/// The value `u16::from_str` gives a text: an optional `+`, then one or more
/// ASCII digits whose value fits a `u16`.
pub open spec fn u16_value(s: Seq<char>) -> Option<u16> {
    if unsigned_digits(s).len() > 0 && all_digits(unsigned_digits(s)) && digits_value(
        unsigned_digits(s),
    ) <= u16::MAX {
        Some(digits_value(unsigned_digits(s)) as u16)
    } else {
        None
    }
}

/// The text without a leading `+`.
pub open spec fn unsigned_digits(s: Seq<char>) -> Seq<char> {
    if s.len() > 0 && s[0] == '+' {
        s.drop_first()
    } else {
        s
    }
}

pub open spec fn all_digits(d: Seq<char>) -> bool {
    forall|i: int| 0 <= i < d.len() ==> is_digit(#[trigger] d[i])
}

/// Parse a decimal `u16` as `str::parse` does.
pub fn parse_u16(s: &[char]) -> (r: Option<u16>)
    ensures
        r == u16_value(s@),
{
    let n = s.len();
    let start: usize = if n > 0 && s[0] == '+' {
        1
    } else {
        0
    };
    let ghost d = s@.skip(start as int);
    assert(d =~= unsigned_digits(s@));
    if start >= n {
        return None;
    }
    let mut v: u32 = 0;
    let mut i: usize = start;
    while i < n
        invariant
            start <= i <= n,
            n == s@.len(),
            d == s@.skip(start as int),
            d == unsigned_digits(s@),
            forall|j: int| start <= j < i ==> is_digit(s@[j]),
            v as nat == digits_value(s@.subrange(start as int, i as int)),
            v <= u16::MAX,
        decreases n - i,
    {
        let c = s[i];
        if !('0' <= c && c <= '9') {
            assert(d[i - start] == s@[i as int]);
            assert(!is_digit(d[i - start]));
            assert(!all_digits(d));
            assert(u16_value(s@) is None);
            return None;
        }
        assert(s@.subrange(start as int, i + 1).drop_last() =~= s@.subrange(start as int, i as int));
        let digit: u32 = (c as u32) - ('0' as u32);
        let nv: u32 = v * 10 + digit;
        if nv > 65535 {
            proof {
                assert(d.take(i + 1 - start) =~= s@.subrange(start as int, i + 1));
                if all_digits(d) {
                    lemma_digits_prefix_grows(d, i + 1 - start);
                    assert(digits_value(d) > u16::MAX);
                }
                assert(u16_value(s@) is None);
            }
            return None;
        }
        v = nv;
        i = i + 1;
    }
    assert(s@.subrange(start as int, n as int) =~= d);
    Some(v as u16)
}

/// A longer run of digits is worth at least as much as its prefix.
proof fn lemma_digits_prefix_grows(d: Seq<char>, k: int)
    requires
        0 <= k <= d.len(),
        forall|j: int| 0 <= j < d.len() ==> is_digit(#[trigger] d[j]),
    ensures
        digits_value(d.take(k)) <= digits_value(d),
    decreases d.len() - k,
{
    if k < d.len() {
        lemma_digits_prefix_grows(d, k + 1);
        assert(d.take(k + 1).drop_last() =~= d.take(k));
    } else {
        assert(d.take(k) =~= d);
    }
}

/// Why the lock file gives no port.
#[derive(Debug, PartialEq, Eq)]
pub enum PortError {
    /// The content is not `pid:port`.
    NotPidPort,
    /// The port is not a number that fits 16 bits.
    BadPort,
}

/// The port in the lock file's content: the second `:`-separated field of
/// the trimmed text.
pub open spec fn lock_port(content: Seq<char>) -> Result<u16, PortError> {
    let f = split(trim(content), ':');
    if f.len() < 2 {
        Err(PortError::NotPidPort)
    } else {
        match u16_value(f[1]) {
            Some(p) => Ok(p),
            None => Err(PortError::BadPort),
        }
    }
}

pub fn port_from_lock(content: &str) -> (r: Result<u16, PortError>)
    ensures
        r == lock_port(content@),
{
    let t = trim_vec(&chars_of(content));
    let f = split_vec(&t, ':');
    if f.len() < 2 {
        return Err(PortError::NotPidPort);
    }
    assert(views(f@)[1] == f@[1]@);
    match parse_u16(&f[1]) {
        Some(p) => Ok(p),
        None => Err(PortError::BadPort),
    }
}

/// Why the shared key handed over is unusable.
#[derive(Debug, PartialEq, Eq)]
pub enum ApiKeyError {
    /// It is not base64.
    NotBase64,
    /// It does not decode to 32 bytes.
    WrongLength(usize),
}

/// The shared key from its base64 text (surrounding whitespace ignored): it
/// must decode to exactly 32 bytes.
pub fn decode_api_key(text: &str) -> (r: Result<Vec<u8>, ApiKeyError>)
    ensures
        match base64_decoded(trim(text@)) {
            Some(k) => if k.len() == 32 {
                r is Ok && r->Ok_0@ == k
            } else {
                r == Err::<Vec<u8>, ApiKeyError>(ApiKeyError::WrongLength(k.len() as usize))
            },
            None => r == Err::<Vec<u8>, ApiKeyError>(ApiKeyError::NotBase64),
        },
        forall|k: Seq<u8>|
            k.len() == 32 && #[trigger] base64_encoded(k) == trim(text@) ==> r is Ok && r->Ok_0@
                == k,
{
    let t = string_of(&trim_vec(&chars_of(text)));
    match base64_decode(t.as_str()) {
        Some(k) => {
            if k.len() == 32 {
                Ok(k)
            } else {
                Err(ApiKeyError::WrongLength(k.len()))
            }
        },
        None => Err(ApiKeyError::NotBase64),
    }
}

/// The development key (all zeros) used when none is handed over.
pub fn dev_api_key() -> (r: Vec<u8>)
    ensures
        r@ == Seq::new(32, |i: int| 0u8),
{
    let mut v: Vec<u8> = Vec::new();
    let mut i: usize = 0;
    while i < 32
        invariant
            i <= 32,
            v@ == Seq::new(i as nat, |k: int| 0u8),
        decreases 32 - i,
    {
        v.push(0u8);
        assert(v@ =~= Seq::new((i + 1) as nat, |k: int| 0u8));
        i = i + 1;
    }
    v
}

} // verus!
