//! ChaCha20-Poly1305 framing shared by the GUI↔service transport and the
//! identity vault: a frame is `[12-byte nonce][ciphertext]`, the ciphertext
//! being the sealed plaintext followed by its 16-byte tag.

use vstd::prelude::*;
use chacha20poly1305::aead::rand_core::RngCore;
use chacha20poly1305::aead::{Aead, OsRng};
use chacha20poly1305::{AeadCore, ChaCha20Poly1305, Key, KeyInit, Nonce};

verus! {

/// Nonce length of ChaCha20-Poly1305.
pub const NONCE_LEN: usize = 12;

/// Key length of ChaCha20-Poly1305.
pub const KEY_LEN: usize = 32;

/// Length of the authentication tag appended to each ciphertext.
pub const TAG_LEN: usize = 16;

/// Longest plaintext ChaCha20-Poly1305 seals: fewer than `u32::MAX` blocks of
/// 64 bytes.
pub open spec fn aead_max_len() -> int {
    274877906880int
}

/// The ciphertext (tag included) ChaCha20-Poly1305 makes of `pt` under `key`
/// and `nonce`.
pub uninterp spec fn aead_seal(key: Seq<u8>, nonce: Seq<u8>, pt: Seq<u8>) -> Seq<u8>;

/// What ChaCha20-Poly1305 decryption of `ct` under `key` and `nonce` gives:
/// the plaintext, or `None` when the tag does not authenticate.
pub uninterp spec fn aead_open(key: Seq<u8>, nonce: Seq<u8>, ct: Seq<u8>) -> Option<Seq<u8>>;

pub open spec fn opt_bytes(o: Option<Vec<u8>>) -> Option<Seq<u8>> {
    match o {
        Some(v) => Some(v@),
        None => None,
    }
}

/// `ChaCha20Poly1305::encrypt` with no associated data. Claimed: it fails
/// only on a plaintext of `aead_max_len()` bytes or more (the block-count
/// check in the crate's source); otherwise the ciphertext is named by
/// [`aead_seal`] and is the plaintext's length plus the tag.
#[verifier::external_body]
fn chacha_encrypt(key: &[u8], nonce: &[u8], pt: &[u8]) -> (r: Option<Vec<u8>>)
    requires
        key@.len() == KEY_LEN,
        nonce@.len() == NONCE_LEN,
    ensures
        match r {
            Some(ct) => ct@ == aead_seal(key@, nonce@, pt@) && ct@.len() == pt@.len() + TAG_LEN
                && pt@.len() < aead_max_len(),
            None => pt@.len() >= aead_max_len(),
        },
{
    let cipher = ChaCha20Poly1305::new(Key::from_slice(key));
    cipher.encrypt(Nonce::from_slice(nonce), pt).ok()
}

/// `ChaCha20Poly1305::decrypt` with no associated data. Claimed: the result
/// is named by [`aead_open`]; and a ciphertext that sealing produced under
/// the same key and nonce opens to the plaintext it sealed (the defining
/// property of an AEAD).
#[verifier::external_body]
fn chacha_decrypt(key: &[u8], nonce: &[u8], ct: &[u8]) -> (r: Option<Vec<u8>>)
    requires
        key@.len() == KEY_LEN,
        nonce@.len() == NONCE_LEN,
    ensures
        opt_bytes(r) == aead_open(key@, nonce@, ct@),
        forall|pt: Seq<u8>|
            pt.len() < aead_max_len() && #[trigger] aead_seal(key@, nonce@, pt) == ct@ ==> opt_bytes(
                r,
            ) == Some(pt),
{
    let cipher = ChaCha20Poly1305::new(Key::from_slice(key));
    cipher.decrypt(Nonce::from_slice(nonce), ct).ok()
}

/// A fresh nonce from the operating system's random source
/// (`ChaCha20Poly1305::generate_nonce(&mut OsRng)`). Claimed: its length
/// only.
#[verifier::external_body]
pub(crate) fn random_nonce() -> (r: Vec<u8>)
    ensures
        r@.len() == NONCE_LEN,
{
    ChaCha20Poly1305::generate_nonce(&mut OsRng).to_vec()
}

/// A fresh 16-byte salt from the operating system's random source
/// (`OsRng.fill_bytes`). Claimed: its length only.
#[verifier::external_body]
pub(crate) fn random_salt() -> (r: Vec<u8>)
    ensures
        r@.len() == 16,
{
    let mut salt = [0u8; 16];
    OsRng.fill_bytes(&mut salt);
    salt.to_vec()
}

/// The bytes `v[from..to]`.
pub fn byte_range(v: &[u8], from: usize, to: usize) -> (r: Vec<u8>)
    requires
        from <= to <= v@.len(),
    ensures
        r@ == v@.subrange(from as int, to as int),
{
    let mut out: Vec<u8> = Vec::new();
    let mut i: usize = from;
    while i < to
        invariant
            from <= i <= to,
            to <= v@.len(),
            out@ == v@.subrange(from as int, i as int),
        decreases to - i,
    {
        out.push(v[i]);
        assert(v@.subrange(from as int, i + 1) =~= v@.subrange(from as int, i as int).push(v@[i as int]));
        i = i + 1;
    }
    out
}

/// Append the bytes of `b` to `a`.
pub fn append_bytes(a: &mut Vec<u8>, b: &[u8])
    ensures
        final(a)@ == old(a)@ + b@,
{
    let ghost a0 = a@;
    let mut i: usize = 0;
    while i < b.len()
        invariant
            a@ == a0 + b@.take(i as int),
            i <= b@.len(),
        decreases b.len() - i,
    {
        a.push(b[i]);
        assert(b@.take(i + 1) =~= b@.take(i as int).push(b@[i as int]));
        i = i + 1;
    }
    assert(b@.take(b@.len() as int) =~= b@);
}

/// The frame for `pt` sealed under `key` with `nonce`.
pub open spec fn frame_of(key: Seq<u8>, nonce: Seq<u8>, pt: Seq<u8>) -> Seq<u8> {
    nonce + aead_seal(key, nonce, pt)
}

/// Seal `pt` under `key` with a fresh nonce: `Some(nonce ‖ ciphertext)`, or
/// `None` when the plaintext is too long to seal.
pub fn seal(key: &[u8], pt: &[u8]) -> (r: Option<Vec<u8>>)
    requires
        key@.len() == KEY_LEN,
    ensures
        match r {
            Some(f) => f@.len() == NONCE_LEN + pt@.len() + TAG_LEN && pt@.len() < aead_max_len()
                && f@ == frame_of(key@, f@.take(NONCE_LEN as int), pt@),
            None => pt@.len() >= aead_max_len(),
        },
{
    let nonce = random_nonce();
    match chacha_encrypt(key, nonce.as_slice(), pt) {
        Some(ct) => {
            let mut out = byte_range(nonce.as_slice(), 0, nonce.len());
            append_bytes(&mut out, ct.as_slice());
            assert(nonce@.subrange(0, nonce@.len() as int) =~= nonce@);
            assert(out@ == frame_of(key@, nonce@, pt@));
            assert(out@.take(NONCE_LEN as int) =~= nonce@);
            Some(out)
        },
        None => None,
    }
}

/// Open a frame: `None` when it is no longer than a nonce or does not
/// authenticate, else the plaintext.
pub fn open(key: &[u8], frame: &[u8]) -> (r: Option<Vec<u8>>)
    requires
        key@.len() == KEY_LEN,
    ensures
        frame@.len() <= NONCE_LEN ==> r is None,
        frame@.len() > NONCE_LEN ==> opt_bytes(r) == aead_open(
            key@,
            frame@.take(NONCE_LEN as int),
            frame@.skip(NONCE_LEN as int),
        ),
        forall|n: Seq<u8>, pt: Seq<u8>|
            n.len() == NONCE_LEN && pt.len() < aead_max_len() && frame@.len() > NONCE_LEN
                && frame@ == #[trigger] frame_of(key@, n, pt) ==> opt_bytes(r) == Some(pt),
{
    if frame.len() <= NONCE_LEN {
        return None;
    }
    let nonce = byte_range(frame, 0, NONCE_LEN);
    let ct = byte_range(frame, NONCE_LEN, frame.len());
    let r = chacha_decrypt(key, nonce.as_slice(), ct.as_slice());
    proof {
        assert(nonce@ =~= frame@.take(NONCE_LEN as int));
        assert(ct@ =~= frame@.skip(NONCE_LEN as int));
        assert forall|n: Seq<u8>, pt: Seq<u8>|
            n.len() == NONCE_LEN && pt.len() < aead_max_len() && frame@.len() > NONCE_LEN
                && frame@ == #[trigger] frame_of(key@, n, pt) implies opt_bytes(r) == Some(pt) by {
            assert(frame@.take(NONCE_LEN as int) =~= n);
            assert(frame@.skip(NONCE_LEN as int) =~= aead_seal(key@, n, pt));
        }
    }
    r
}

/// The transport's shared-key cipher.
pub struct Crypto {
    key: Vec<u8>,
}

#[derive(Debug, PartialEq, Eq)]
pub enum CryptoError {
    /// The plaintext is too long to seal.
    EncryptFailed,
    /// The frame is no longer than a nonce.
    FrameTooShort,
    /// The frame does not authenticate under the key.
    DecryptFailed,
}

impl Crypto {
    pub closed spec fn key(&self) -> Seq<u8> {
        self.key@
    }

    /// A cipher over `key`, which must be 32 bytes for it to seal or open.
    pub fn new(key: Vec<u8>) -> (r: Self)
        ensures
            r.key() == key@,
    {
        Crypto { key }
    }

    /// Seal a plaintext into a frame under a fresh nonce.
    pub fn encrypt(&self, plaintext: &[u8]) -> (r: Result<Vec<u8>, CryptoError>)
        requires
            self.key().len() == KEY_LEN,
        ensures
            match r {
                Ok(f) => f@.len() == NONCE_LEN + plaintext@.len() + TAG_LEN && plaintext@.len()
                    < aead_max_len() && f@ == frame_of(self.key(), f@.take(NONCE_LEN as int), plaintext@),
                Err(e) => e == CryptoError::EncryptFailed && plaintext@.len() >= aead_max_len(),
            },
    {
        match seal(self.key.as_slice(), plaintext) {
            Some(f) => Ok(f),
            None => Err(CryptoError::EncryptFailed),
        }
    }

    /// Open a frame into its plaintext.
    pub fn decrypt(&self, frame: &[u8]) -> (r: Result<Vec<u8>, CryptoError>)
        requires
            self.key().len() == KEY_LEN,
        ensures
            frame@.len() <= NONCE_LEN ==> r == Err::<Vec<u8>, CryptoError>(
                CryptoError::FrameTooShort,
            ),
            frame@.len() > NONCE_LEN ==> match r {
                Ok(pt) => aead_open(
                    self.key(),
                    frame@.take(NONCE_LEN as int),
                    frame@.skip(NONCE_LEN as int),
                ) == Some(pt@),
                Err(e) => e == CryptoError::DecryptFailed && aead_open(
                    self.key(),
                    frame@.take(NONCE_LEN as int),
                    frame@.skip(NONCE_LEN as int),
                ) is None,
            },
            forall|n: Seq<u8>, pt: Seq<u8>|
                n.len() == NONCE_LEN && pt.len() < aead_max_len() && frame@.len() > NONCE_LEN
                    && frame@ == #[trigger] frame_of(self.key(), n, pt) ==> match r {
                    Ok(p) => p@ == pt,
                    Err(_) => false,
                },
    {
        if frame.len() <= NONCE_LEN {
            return Err(CryptoError::FrameTooShort);
        }
        match open(self.key.as_slice(), frame) {
            Some(pt) => Ok(pt),
            None => Err(CryptoError::DecryptFailed),
        }
    }
}

} // verus!
