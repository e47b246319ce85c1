//! The Windows-side client-certificate signer (from WSL): a `winsign:`
//! URI names a certificate in the Windows store by thumbprint, and
//! `powershell.exe` reads the certificate and signs with its key. This module
//! decides the thumbprint, the PowerShell binary and scripts, and reads their
//! base64 output.

use vstd::prelude::*;
use crate::encoding::{base64_decode, base64_decoded, base64_encode, base64_encoded, opt_bytes};
use crate::paths::path_exists;
use crate::text::{
    chars_of, extend, lit, push_str, starts_with, string_of, strip_prefix, strip_prefix_str, trim,
    trim_start, trim_start_vec, trim_vec,
};

verus! {

pub open spec fn is_winsign_uri_spec(s: Seq<char>) -> bool {
    starts_with(trim_start(s), "winsign:"@)
}

/// Whether `s` (after leading whitespace) is a `winsign:` URI.
pub fn is_winsign_uri(s: &str) -> (r: bool)
    ensures
        r == is_winsign_uri_spec(s@),
{
    let t = trim_start_vec(&chars_of(s));
    crate::text::has_prefix_str(&t, "winsign:")
}

/// Why a `winsign:` URI names no certificate.
#[derive(Debug, PartialEq, Eq)]
pub enum WinsignError {
    /// The text is not a `winsign:` URI.
    NotWinsign,
    /// The URI holds no thumbprint.
    NoThumbprint,
}

/// `s` without its spaces and colons.
pub open spec fn without_separators(s: Seq<char>) -> Seq<char> {
    s.filter(|c: char| c != ' ' && c != ':')
}

fn without_separators_vec(s: &[char]) -> (r: Vec<char>)
    ensures
        r@ == without_separators(s@),
{
    let mut out: Vec<char> = Vec::new();
    let mut i: usize = 0;
    while i < s.len()
        invariant
            i <= s@.len(),
            out@ == without_separators(s@.take(i as int)),
        decreases s.len() - i,
    {
        proof {
            reveal_with_fuel(Seq::filter, 1);
            assert(s@.take(i + 1).drop_last() =~= s@.take(i as int));
        }
        if s[i] != ' ' && s[i] != ':' {
            out.push(s[i]);
        }
        i = i + 1;
    }
    assert(s@.take(s@.len() as int) =~= s@);
    out
}

/// The thumbprint of a `winsign:<thumbprint>` URI: the text after the
/// scheme, trimmed, spaces and colons removed.
pub open spec fn thumbprint_spec(uri: Seq<char>) -> Result<Seq<char>, WinsignError> {
    match strip_prefix(trim_start(uri), "winsign:"@) {
        Some(rest) => {
            let tp = without_separators(trim(rest));
            if tp.len() == 0 {
                Err(WinsignError::NoThumbprint)
            } else {
                Ok(tp)
            }
        },
        None => Err(WinsignError::NotWinsign),
    }
}

pub fn thumbprint_from_uri(uri: &str) -> (r: Result<String, WinsignError>)
    ensures
        match r {
            Ok(tp) => thumbprint_spec(uri@) == Ok::<Seq<char>, WinsignError>(tp@),
            Err(e) => thumbprint_spec(uri@) == Err::<Seq<char>, WinsignError>(e),
        },
{
    let t = trim_start_vec(&chars_of(uri));
    let rest = match strip_prefix_str(&t, "winsign:") {
        Some(r) => r,
        None => {
            return Err(WinsignError::NotWinsign);
        },
    };
    let tp = without_separators_vec(&trim_vec(&rest));
    if tp.len() == 0 {
        return Err(WinsignError::NoThumbprint);
    }
    Ok(string_of(&tp))
}

/// The standard location of PowerShell, reachable from WSL.
pub const POWERSHELL_FULL: &'static str = "/mnt/c/Windows/System32/WindowsPowerShell/v1.0/powershell.exe";

/// The PowerShell binary: the `GP_POWERSHELL` value when set, else the
/// standard Windows path when it exists, else `powershell.exe` on PATH.
pub fn powershell_bin(env: Option<&str>) -> (r: String)
    ensures
        match env {
            Some(p) => r@ == p@,
            None => r@ == POWERSHELL_FULL@ || r@ == "powershell.exe"@,
        },
{
    match env {
        Some(p) => p.to_owned(),
        None => {
            if path_exists(POWERSHELL_FULL) {
                POWERSHELL_FULL.to_owned()
            } else {
                "powershell.exe".to_owned()
            }
        },
    }
}

/// The script that prints the certificate with thumbprint `tp` (DER, in
/// base64) from the user's store.
pub open spec fn fetch_cert_script_spec(tp: Seq<char>) -> Seq<char> {
    "$c=Get-Item 'Cert:\\CurrentUser\\My\\"@ + tp + "' -ErrorAction Stop; [Convert]::ToBase64String($c.RawData)"@
}

pub fn fetch_cert_script(tp: &str) -> (r: String)
    ensures
        r@ == fetch_cert_script_spec(tp@),
{
    let mut s = lit("$c=Get-Item 'Cert:\\CurrentUser\\My\\");
    push_str(&mut s, tp);
    push_str(&mut s, "' -ErrorAction Stop; [Convert]::ToBase64String($c.RawData)");
    string_of(&s)
}

/// The body of the signing script: it reads the message (base64) on stdin,
/// signs it with SHA-256 with the certificate's ECDSA or RSA key (PSS or
/// PKCS#1 padding) and prints the signature in base64.
pub open spec fn sign_script_body() -> Seq<char> {
    "$msg=[Convert]::FromBase64String([Console]::In.ReadToEnd());$c=Get-Item \"Cert:\\CurrentUser\\My\\$tp\";if($pad -eq 'Ecdsa'){$k=[System.Security.Cryptography.X509Certificates.ECDsaCertificateExtensions]::GetECDsaPrivateKey($c);$sig=$k.SignData($msg,[Security.Cryptography.HashAlgorithmName]::SHA256)}else{$k=[System.Security.Cryptography.X509Certificates.RSACertificateExtensions]::GetRSAPrivateKey($c);$p=if($pad -eq 'Pss'){[Security.Cryptography.RSASignaturePadding]::Pss}else{[Security.Cryptography.RSASignaturePadding]::Pkcs1};$sig=$k.SignData($msg,[Security.Cryptography.HashAlgorithmName]::SHA256,$p)};[Convert]::ToBase64String($sig)"@
}

/// The script that signs with the key of certificate `tp` using padding
/// `pad`.
pub open spec fn sign_script_spec(tp: Seq<char>, pad: Seq<char>) -> Seq<char> {
    "$tp='"@ + tp + "';$pad='"@ + pad + "';"@ + sign_script_body()
}

pub fn sign_script(tp: &str, pad: &str) -> (r: String)
    ensures
        r@ == sign_script_spec(tp@, pad@),
{
    let mut s = lit("$tp='");
    push_str(&mut s, tp);
    push_str(&mut s, "';$pad='");
    push_str(&mut s, pad);
    push_str(&mut s, "';");
    push_str(&mut s, "$msg=[Convert]::FromBase64String([Console]::In.ReadToEnd());$c=Get-Item \"Cert:\\CurrentUser\\My\\$tp\";if($pad -eq 'Ecdsa'){$k=[System.Security.Cryptography.X509Certificates.ECDsaCertificateExtensions]::GetECDsaPrivateKey($c);$sig=$k.SignData($msg,[Security.Cryptography.HashAlgorithmName]::SHA256)}else{$k=[System.Security.Cryptography.X509Certificates.RSACertificateExtensions]::GetRSAPrivateKey($c);$p=if($pad -eq 'Pss'){[Security.Cryptography.RSASignaturePadding]::Pss}else{[Security.Cryptography.RSASignaturePadding]::Pkcs1};$sig=$k.SignData($msg,[Security.Cryptography.HashAlgorithmName]::SHA256,$p)};[Convert]::ToBase64String($sig)");
    string_of(&s)
}

/// The bytes in PowerShell's base64 output (surrounding whitespace ignored),
/// or `None` when it is not base64.
pub fn decode_output(out: &str) -> (r: Option<Vec<u8>>)
    ensures
        opt_bytes(r) == base64_decoded(trim(out@)),
        forall|b: Seq<u8>| #[trigger] base64_encoded(b) == trim(out@) ==> opt_bytes(r) == Some(b),
{
    let t = string_of(&trim_vec(&chars_of(out)));
    base64_decode(t.as_str())
}

/// The message handed to the signing script on stdin.
pub fn encode_message(message: &[u8]) -> (r: String)
    requires
        message@.len() <= usize::MAX / 2,
    ensures
        r@ == base64_encoded(message@),
{
    base64_encode(message)
}

/// A PowerShell run's outcome: its trimmed output on success, else its
/// trimmed error output as the reason.
pub fn powershell_outcome(success: bool, stdout: &str, stderr: &str) -> (r: Result<String, String>)
    ensures
        match r {
            Ok(o) => success && o@ == trim(stdout@),
            Err(e) => !success && e@ == trim(stderr@),
        },
{
    if success {
        Ok(string_of(&trim_vec(&chars_of(stdout))))
    } else {
        Err(string_of(&trim_vec(&chars_of(stderr))))
    }
}

} // verus!
