//! Client-certificate signing for the mutual-TLS prelogin: which signature
//! scheme a key signs with among those the server offers, and what that scheme
//! is called by a PKCS#11 token and by the Windows certificate store.

use vstd::prelude::*;

verus! {

/// TLS `rsa_pkcs1_sha256`.
pub const RSA_PKCS1_SHA256: u16 = 0x0401;
/// TLS `ecdsa_secp256r1_sha256`.
pub const ECDSA_NISTP256_SHA256: u16 = 0x0403;
/// TLS `rsa_pss_rsae_sha256`.
pub const RSA_PSS_SHA256: u16 = 0x0804;

/// PKCS#11 `CKK_RSA`.
pub const CKK_RSA: u64 = 0;
/// PKCS#11 `CKK_EC`.
pub const CKK_EC: u64 = 3;

/// The algorithm of a client key.
#[derive(Debug, Clone, Copy, PartialEq, Eq)]
pub enum KeyAlgorithm {
    Rsa,
    Ecdsa,
}

/// The algorithm of a PKCS#11 private key of type `key_type`: RSA and EC
/// keys are supported, others are not.
pub fn algorithm_for_key_type(key_type: u64) -> (r: Option<KeyAlgorithm>)
    ensures
        r == if key_type == CKK_RSA {
            Some(KeyAlgorithm::Rsa)
        } else if key_type == CKK_EC {
            Some(KeyAlgorithm::Ecdsa)
        } else {
            None
        },
{
    if key_type == CKK_RSA {
        Some(KeyAlgorithm::Rsa)
    } else if key_type == CKK_EC {
        Some(KeyAlgorithm::Ecdsa)
    } else {
        None
    }
}

/// The schemes a key signs with, in preference order: RSA-PSS before
/// PKCS#1 v1.5 for RSA, P-256 for ECDSA.
pub open spec fn preferred_schemes(alg: KeyAlgorithm) -> Seq<u16> {
    match alg {
        KeyAlgorithm::Rsa => seq![RSA_PSS_SHA256, RSA_PKCS1_SHA256],
        KeyAlgorithm::Ecdsa => seq![ECDSA_NISTP256_SHA256],
    }
}

/// The first of `prefs` that is offered.
pub open spec fn first_offered(prefs: Seq<u16>, offered: Seq<u16>) -> Option<u16>
    decreases prefs.len(),
{
    if prefs.len() == 0 {
        None
    } else if offered.contains(prefs[0]) {
        Some(prefs[0])
    } else {
        first_offered(prefs.drop_first(), offered)
    }
}

fn offers(offered: &[u16], s: u16) -> (r: bool)
    ensures
        r == offered@.contains(s),
{
    let mut i: usize = 0;
    while i < offered.len()
        invariant
            i <= offered@.len(),
            forall|j: int| 0 <= j < i ==> offered@[j] != s,
        decreases offered.len() - i,
    {
        if offered[i] == s {
            return true;
        }
        i = i + 1;
    }
    false
}

/// The scheme a key of algorithm `alg` signs with among those the server
/// offers: its most preferred one that is offered, if any.
pub fn choose_scheme(alg: KeyAlgorithm, offered: &[u16]) -> (r: Option<u16>)
    ensures
        r == first_offered(preferred_schemes(alg), offered@),
{
    proof {
        reveal_with_fuel(first_offered, 3);
    }
    match alg {
        KeyAlgorithm::Rsa => {
            assert(preferred_schemes(alg).drop_first() =~= seq![RSA_PKCS1_SHA256]);
            assert(seq![RSA_PKCS1_SHA256].drop_first() =~= Seq::<u16>::empty());
            if offers(offered, RSA_PSS_SHA256) {
                Some(RSA_PSS_SHA256)
            } else if offers(offered, RSA_PKCS1_SHA256) {
                Some(RSA_PKCS1_SHA256)
            } else {
                None
            }
        },
        KeyAlgorithm::Ecdsa => {
            assert(preferred_schemes(alg).drop_first() =~= Seq::<u16>::empty());
            if offers(offered, ECDSA_NISTP256_SHA256) {
                Some(ECDSA_NISTP256_SHA256)
            } else {
                None
            }
        },
    }
}

/// A chosen scheme is one the server offered and one the key can sign with.
pub proof fn chosen_scheme_is_offered(alg: KeyAlgorithm, offered: Seq<u16>)
    ensures
        match first_offered(preferred_schemes(alg), offered) {
            Some(s) => offered.contains(s) && preferred_schemes(alg).contains(s),
            None => forall|i: int|
                0 <= i < preferred_schemes(alg).len() ==> !offered.contains(
                    #[trigger] preferred_schemes(alg)[i],
                ),
        },
{
    reveal_with_fuel(first_offered, 3);
    let p = preferred_schemes(alg);
    if offered.contains(p[0]) {
        assert(p.contains(p[0]));
    } else if p.len() > 1 {
        assert(p.drop_first()[0] == p[1]);
        assert(p.drop_first().drop_first().len() == 0);
        if offered.contains(p[1]) {
            assert(p.contains(p[1]));
        }
    } else {
        assert(p.drop_first().len() == 0);
    }
}

/// The PKCS#11 signing mechanism of a scheme.
#[derive(Debug, Clone, Copy, PartialEq, Eq)]
pub enum Mechanism {
    /// `CKM_SHA256_RSA_PKCS`.
    Sha256RsaPkcs,
    /// `CKM_SHA256_RSA_PKCS_PSS` with SHA-256, MGF1-SHA256 and a 32-byte salt.
    Sha256RsaPkcsPss,
    /// `CKM_ECDSA_SHA256`.
    EcdsaSha256,
}

/// The token mechanism that signs with `scheme`; other schemes are
/// unsupported.
pub fn mechanism_for(scheme: u16) -> (r: Option<Mechanism>)
    ensures
        r == if scheme == RSA_PKCS1_SHA256 {
            Some(Mechanism::Sha256RsaPkcs)
        } else if scheme == RSA_PSS_SHA256 {
            Some(Mechanism::Sha256RsaPkcsPss)
        } else if scheme == ECDSA_NISTP256_SHA256 {
            Some(Mechanism::EcdsaSha256)
        } else {
            None
        },
{
    if scheme == RSA_PKCS1_SHA256 {
        Some(Mechanism::Sha256RsaPkcs)
    } else if scheme == RSA_PSS_SHA256 {
        Some(Mechanism::Sha256RsaPkcsPss)
    } else if scheme == ECDSA_NISTP256_SHA256 {
        Some(Mechanism::EcdsaSha256)
    } else {
        None
    }
}

/// The padding name the Windows signer script uses for `scheme`.
pub open spec fn windows_padding_spec(scheme: u16) -> Option<Seq<char>> {
    if scheme == RSA_PSS_SHA256 {
        Some("Pss"@)
    } else if scheme == RSA_PKCS1_SHA256 {
        Some("Pkcs1"@)
    } else if scheme == ECDSA_NISTP256_SHA256 {
        Some("Ecdsa"@)
    } else {
        None
    }
}

pub fn windows_padding(scheme: u16) -> (r: Option<&'static str>)
    ensures
        match r {
            Some(p) => windows_padding_spec(scheme) == Some(p@),
            None => windows_padding_spec(scheme) is None,
        },
{
    if scheme == RSA_PSS_SHA256 {
        Some("Pss")
    } else if scheme == RSA_PKCS1_SHA256 {
        Some("Pkcs1")
    } else if scheme == ECDSA_NISTP256_SHA256 {
        Some("Ecdsa")
    } else {
        None
    }
}

} // verus!
