//! Client-certificate files for the portal prelogin: which format a file is
//! read as (PKCS#12 or PEM), and which PEM block of a key file is the private
//! key, and whether it needs a passphrase.

use vstd::prelude::*;
use crate::text::{chars_of, ends_with, has_prefix_str, has_suffix_str, starts_with};

verus! {

/// Why a client identity cannot be built.
#[derive(Debug, PartialEq, Eq)]
pub enum RequestIdentityError {
    /// No private key block in the key file.
    NoKey,
    /// The key (of the named format) is encrypted and no passphrase was given.
    NoPassphrase(&'static str),
    /// The key (of the named format) could not be decrypted.
    DecryptError(&'static str),
}

/// The text shown for each reason a client identity cannot be built.
pub open spec fn identity_error_text(e: RequestIdentityError) -> Seq<char> {
    match e {
        RequestIdentityError::NoKey => "Failed to find the private key"@,
        RequestIdentityError::NoPassphrase(_) => "No passphrase provided"@,
        RequestIdentityError::DecryptError(_) => "Failed to decrypt private key"@,
    }
}

impl RequestIdentityError {
    pub fn message(&self) -> (r: &'static str)
        ensures
            r@ == identity_error_text(*self),
    {
        match self {
            RequestIdentityError::NoKey => "Failed to find the private key",
            RequestIdentityError::NoPassphrase(_) => "No passphrase provided",
            RequestIdentityError::DecryptError(_) => "Failed to decrypt private key",
        }
    }
}

/// How a certificate argument is read.
#[derive(Debug, Clone, Copy, PartialEq, Eq)]
pub enum IdentityKind {
    /// A `pkcs11:` URI, which the prelogin's TLS stack cannot present.
    Pkcs11,
    /// A `.p12` / `.pfx` file.
    Pkcs12,
    /// A PEM file (certificate, with the key in it or in a key file).
    Pem,
}

pub fn identity_kind(cert: &str) -> (r: IdentityKind)
    ensures
        r == if starts_with(cert@, "pkcs11:"@) {
            IdentityKind::Pkcs11
        } else if ends_with(cert@, ".p12"@) || ends_with(cert@, ".pfx"@) {
            IdentityKind::Pkcs12
        } else {
            IdentityKind::Pem
        },
{
    let v = chars_of(cert);
    if has_prefix_str(&v, "pkcs11:") {
        IdentityKind::Pkcs11
    } else if has_suffix_str(&v, ".p12") || has_suffix_str(&v, ".pfx") {
        IdentityKind::Pkcs12
    } else {
        IdentityKind::Pem
    }
}

/// The passphrase a PKCS#12 file needs.
pub fn pkcs12_passphrase(passphrase: Option<&str>) -> (r: Result<String, RequestIdentityError>)
    ensures
        match passphrase {
            Some(p) => r is Ok && r->Ok_0@ == p@,
            None => r == Err::<String, RequestIdentityError>(
                RequestIdentityError::NoPassphrase("PKCS#12"),
            ),
        },
{
    match passphrase {
        Some(p) => Ok(p.to_owned()),
        None => Err(RequestIdentityError::NoPassphrase("PKCS#12")),
    }
}

/// The blocks of a PEM file: each block's tag and its text re-encoded.
pub uninterp spec fn pem_blocks_of(data: Seq<u8>) -> Option<Seq<(Seq<char>, Seq<char>)>>;

pub open spec fn blocks_view(o: Option<Vec<(String, String)>>) -> Option<Seq<(Seq<char>, Seq<char>)>> {
    match o {
        Some(v) => Some(v@.map_values(|b: (String, String)| (b.0@, b.1@))),
        None => None,
    }
}

/// `pem::parse_many`, each block handed out as its tag and `pem::encode`
/// of it (a block's headers live only inside the crate's own `Pem`, so the
/// tag and the re-encoded text are taken together). Claimed: the result is
/// named by [`pem_blocks_of`]; `None` when the file is not PEM.
#[verifier::external_body]
fn pem_blocks(data: &[u8]) -> (r: Option<Vec<(String, String)>>)
    ensures
        blocks_view(r) == pem_blocks_of(data@),
{
    pem::parse_many(data).ok().map(|v| v.iter().map(|p| (p.tag().to_string(), pem::encode(p))).collect())
}

/// The private key to use.
#[derive(Debug)]
pub enum KeyPem {
    /// An unencrypted key, PEM-encoded.
    Plain(String),
    /// An encrypted PKCS#8 key with the passphrase that opens it.
    Encrypted { pem: String, secret: String },
}

/// Why no key can be taken from a key file.
#[derive(Debug, PartialEq, Eq)]
pub enum KeyFileError {
    /// The file is not PEM.
    NotPem,
    Identity(RequestIdentityError),
}

/// Index of the first block from `k` on whose tag ends with `PRIVATE KEY`.
pub open spec fn key_index_from(bs: Seq<(Seq<char>, Seq<char>)>, k: int) -> Option<int>
    decreases bs.len() - k,
{
    if k < 0 || k >= bs.len() {
        None
    } else if ends_with(bs[k].0, "PRIVATE KEY"@) {
        Some(k)
    } else {
        key_index_from(bs, k + 1)
    }
}

/// What a key file's blocks give: the first private key block, plain, or
/// encrypted with the passphrase (which it then needs).
pub open spec fn key_choice(bs: Seq<(Seq<char>, Seq<char>)>, passphrase: Option<Seq<char>>) -> Result<(Seq<char>, Option<Seq<char>>), RequestIdentityError> {
    match key_index_from(bs, 0) {
        None => Err(RequestIdentityError::NoKey),
        Some(i) => if ends_with(bs[i].0, "ENCRYPTED PRIVATE KEY"@) {
            match passphrase {
                Some(p) => Ok((bs[i].1, Some(p))),
                None => Err(RequestIdentityError::NoPassphrase("PEM")),
            }
        } else {
            Ok((bs[i].1, None))
        },
    }
}

pub open spec fn key_view(k: KeyPem) -> (Seq<char>, Option<Seq<char>>) {
    match k {
        KeyPem::Plain(p) => (p@, None),
        KeyPem::Encrypted { pem, secret } => (pem@, Some(secret@)),
    }
}

pub open spec fn opt_text(o: Option<&str>) -> Option<Seq<char>> {
    match o {
        Some(s) => Some(s@),
        None => None,
    }
}

/// The private key of a key file: the first block tagged `… PRIVATE KEY`;
/// when it is an `ENCRYPTED PRIVATE KEY`, it needs the passphrase.
pub fn select_key_pem(key_file: &[u8], passphrase: Option<&str>) -> (r: Result<KeyPem, KeyFileError>)
    ensures
        match pem_blocks_of(key_file@) {
            None => r == Err::<KeyPem, KeyFileError>(KeyFileError::NotPem),
            Some(bs) => match key_choice(bs, opt_text(passphrase)) {
                Ok(v) => r is Ok && key_view(r->Ok_0) == v,
                Err(e) => r == Err::<KeyPem, KeyFileError>(KeyFileError::Identity(e)),
            },
        },
{
    let blocks = match pem_blocks(key_file) {
        Some(b) => b,
        None => {
            return Err(KeyFileError::NotPem);
        },
    };
    let ghost bs = blocks@.map_values(|b: (String, String)| (b.0@, b.1@));
    assert(blocks_view(Some(blocks)) == Some(bs));
    let mut i: usize = 0;
    while i < blocks.len()
        invariant
            bs == blocks@.map_values(|b: (String, String)| (b.0@, b.1@)),
            pem_blocks_of(key_file@) == Some(bs),
            i <= blocks@.len(),
            key_index_from(bs, 0) == key_index_from(bs, i as int),
        decreases blocks.len() - i,
    {
        let tag = chars_of(blocks[i].0.as_str());
        assert(bs[i as int].0 == tag@);
        if has_suffix_str(&tag, "PRIVATE KEY") {
            let text = blocks[i].1.clone();
            assert(bs[i as int].1 == text@);
            if has_suffix_str(&tag, "ENCRYPTED PRIVATE KEY") {
                return match passphrase {
                    Some(p) => Ok(KeyPem::Encrypted { pem: text, secret: p.to_owned() }),
                    None => Err(KeyFileError::Identity(RequestIdentityError::NoPassphrase("PEM"))),
                };
            }
            return Ok(KeyPem::Plain(text));
        }
        i = i + 1;
    }
    Err(KeyFileError::Identity(RequestIdentityError::NoKey))
}

} // verus!
