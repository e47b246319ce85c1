//! PKCS#11 client certificates: where the token module is looked for, and the
//! login plan (PIN, token label, certificate and key selectors) that a
//! certificate URI and an optional key URI give.

use vstd::prelude::*;
use crate::paths::{first_existing, first_flagged, join_path, join_path_exec, opt_str, str_views};
use crate::pkcs11_uri::{
    decoded, decoded_bytes, is_pkcs11_uri_spec, last_value, opt_bytes, opt_view, parse_pkcs11_uri,
    path_attrs, query_attrs, uri_decodes, Pkcs11UriError,
};
use crate::text::{chars_of, trim, trim_vec};

verus! {

// ---------------------------------------------------------------------------
// module search
// ---------------------------------------------------------------------------

/// Library directories searched for a PKCS#11 module, across common
/// distributions.
pub open spec fn module_dirs() -> Seq<Seq<char>> {
    seq![
        "/usr/lib64/pkcs11"@,
        "/usr/lib/pkcs11"@,
        "/usr/lib/x86_64-linux-gnu/pkcs11"@,
        "/usr/lib/aarch64-linux-gnu/pkcs11"@,
        "/usr/lib64"@,
        "/usr/lib"@,
        "/usr/lib/x86_64-linux-gnu"@,
        "/usr/lib/aarch64-linux-gnu"@,
        "/usr/local/lib"@,
    ]
}

/// Module file names in preference order: concrete token modules first, the
/// p11-kit aggregate last.
pub open spec fn module_names() -> Seq<Seq<char>> {
    seq![
        "opensc-pkcs11.so"@,
        "libykcs11.so.2"@,
        "libykcs11.so"@,
        "libsofthsm2.so"@,
        "p11-kit-proxy.so"@,
    ]
}

/// Every directory joined with every name, name by name.
pub open spec fn module_candidates(names: Seq<Seq<char>>, dirs: Seq<Seq<char>>) -> Seq<Seq<char>>
    decreases names.len(),
{
    if names.len() == 0 {
        Seq::empty()
    } else {
        module_candidates(names.drop_last(), dirs) + dirs.map_values(
            |d: Seq<char>| join_path(d, names.last()),
        )
    }
}

fn module_dirs_exec() -> (r: Vec<String>)
    ensures
        str_views(r@) == module_dirs(),
{
    let mut v: Vec<String> = Vec::new();
    v.push("/usr/lib64/pkcs11".to_owned());
    v.push("/usr/lib/pkcs11".to_owned());
    v.push("/usr/lib/x86_64-linux-gnu/pkcs11".to_owned());
    v.push("/usr/lib/aarch64-linux-gnu/pkcs11".to_owned());
    v.push("/usr/lib64".to_owned());
    v.push("/usr/lib".to_owned());
    v.push("/usr/lib/x86_64-linux-gnu".to_owned());
    v.push("/usr/lib/aarch64-linux-gnu".to_owned());
    v.push("/usr/local/lib".to_owned());
    assert(str_views(v@) =~= module_dirs());
    v
}

fn module_names_exec() -> (r: Vec<String>)
    ensures
        str_views(r@) == module_names(),
{
    let mut v: Vec<String> = Vec::new();
    v.push("opensc-pkcs11.so".to_owned());
    v.push("libykcs11.so.2".to_owned());
    v.push("libykcs11.so".to_owned());
    v.push("libsofthsm2.so".to_owned());
    v.push("p11-kit-proxy.so".to_owned());
    assert(str_views(v@) =~= module_names());
    v
}

fn candidates_exec(names: &Vec<String>, dirs: &Vec<String>) -> (r: Vec<String>)
    ensures
        str_views(r@) == module_candidates(str_views(names@), str_views(dirs@)),
{
    let ghost nv = str_views(names@);
    let ghost dv = str_views(dirs@);
    let mut out: Vec<String> = Vec::new();
    let mut i: usize = 0;
    while i < names.len()
        invariant
            nv == str_views(names@),
            dv == str_views(dirs@),
            i <= names@.len(),
            str_views(out@) == module_candidates(nv.take(i as int), dv),
        decreases names.len() - i,
    {
        let ghost base = str_views(out@);
        let mut j: usize = 0;
        while j < dirs.len()
            invariant
                nv == str_views(names@),
                dv == str_views(dirs@),
                i < names@.len(),
                j <= dirs@.len(),
                str_views(out@) == base + dv.take(j as int).map_values(
                    |d: Seq<char>| join_path(d, nv[i as int]),
                ),
            decreases dirs.len() - j,
        {
            let p = join_path_exec(dirs[j].as_str(), names[i].as_str());
            let ghost old_out = out@;
            assert(dv[j as int] == dirs@[j as int]@);
            assert(nv[i as int] == names@[i as int]@);
            out.push(p);
            assert(str_views(out@) =~= str_views(old_out).push(join_path(dv[j as int], nv[i as int])));
            assert(dv.take(j + 1) =~= dv.take(j as int).push(dv[j as int]));
            assert(str_views(out@) =~= base + dv.take(j + 1).map_values(
                |d: Seq<char>| join_path(d, nv[i as int]),
            ));
            j = j + 1;
        }
        proof {
            assert(dv.take(dirs@.len() as int) =~= dv);
            assert(nv.take(i + 1).drop_last() =~= nv.take(i as int));
            assert(nv.take(i + 1).last() == nv[i as int]);
        }
        i = i + 1;
    }
    assert(nv.take(names@.len() as int) =~= nv);
    out
}

/// The first of `names`, under the first of the search directories, that
/// exists on disk.
fn find_module_file(names: &Vec<String>) -> (r: Option<String>)
    ensures
        exists|flags: Seq<bool>|
            first_flagged(
                module_candidates(str_views(names@), module_dirs()),
                flags,
                opt_str(r),
            ),
{
    let dirs = module_dirs_exec();
    let c = candidates_exec(names, &dirs);
    first_existing(&c)
}

/// How strongly a module file name is preferred (lower first): the OpenSC
/// PIV module, the YubiKey module (versioned name, then plain), SoftHSM, and
/// last the p11-kit aggregate; any other name ranks after all of them.
pub open spec fn module_preference(n: Seq<char>) -> int {
    if n == "opensc-pkcs11.so"@ {
        0
    } else if n == "libykcs11.so.2"@ {
        1
    } else if n == "libykcs11.so"@ {
        2
    } else if n == "libsofthsm2.so"@ {
        3
    } else if n == "p11-kit-proxy.so"@ {
        4
    } else {
        5
    }
}

/// Whether the file system reported `p` as existing, for the candidates `c`
/// checked with the answers `flags`.
pub open spec fn reported(c: Seq<Seq<char>>, flags: Seq<bool>, p: Seq<char>) -> bool {
    exists|i: int| 0 <= i < c.len() && i < flags.len() && #[trigger] flags[i] && c[i] == p
}

proof fn lemma_join_injective(a1: Seq<char>, b1: Seq<char>, a2: Seq<char>, b2: Seq<char>)
    requires
        join_path(a1, b1) == join_path(a2, b2),
        !b1.contains('/'),
        !b2.contains('/'),
    ensures
        a1 == a2 && b1 == b2,
{
    let s = join_path(a1, b1);
    assert(s.len() == a1.len() + 1 + b1.len());
    assert(s.len() == a2.len() + 1 + b2.len());
    if b1.len() < b2.len() {
        let p = s.len() - b1.len() - 1;
        assert(s[p] == '/');
        assert(join_path(a2, b2)[p] == b2[p - a2.len() - 1]);
        assert(b2.contains('/'));
    } else if b2.len() < b1.len() {
        let p = s.len() - b2.len() - 1;
        assert(join_path(a2, b2)[p] == '/');
        assert(s[p] == b1[p - a1.len() - 1]);
        assert(b1.contains('/'));
    } else {
        assert(b1 =~= s.skip(a1.len() + 1int));
        assert(b2 =~= join_path(a2, b2).skip(a2.len() + 1int));
        assert(a1 =~= s.take(a1.len() as int));
        assert(a2 =~= join_path(a2, b2).take(a2.len() as int));
    }
}

/// Every candidate is one directory joined with one name, and a name earlier
/// in the list gives only earlier candidates.
proof fn lemma_candidate_at(names: Seq<Seq<char>>, dirs: Seq<Seq<char>>, i: int) -> (kj: (int, int))
    requires
        0 <= i < module_candidates(names, dirs).len(),
    ensures
        0 <= kj.0 < names.len() && 0 <= kj.1 < dirs.len(),
        module_candidates(names, dirs)[i] == join_path(dirs[kj.1], names[kj.0]),
        i == kj.0 * dirs.len() + kj.1,
        module_candidates(names, dirs).len() == names.len() * dirs.len(),
    decreases names.len(),
{
    lemma_candidates_len(names, dirs);
    let prev = module_candidates(names.drop_last(), dirs);
    lemma_candidates_len(names.drop_last(), dirs);
    if i < prev.len() {
        let kj = lemma_candidate_at(names.drop_last(), dirs, i);
        kj
    } else {
        let k = names.len() - 1;
        let j = i - prev.len();
        assert(prev.len() == k * dirs.len());
        (k, j)
    }
}

proof fn lemma_candidates_len(names: Seq<Seq<char>>, dirs: Seq<Seq<char>>)
    ensures
        module_candidates(names, dirs).len() == names.len() * dirs.len(),
    decreases names.len(),
{
    if names.len() > 0 {
        lemma_candidates_len(names.drop_last(), dirs);
        assert((names.len() - 1) * dirs.len() + dirs.len() == names.len() * dirs.len())
            by (nonlinear_arith);
    }
}

proof fn lemma_earlier_row(k2: int, j2: int, k: int, j: int, m: int)
    requires
        0 <= k2 < k,
        0 <= j2 < m,
        0 <= j,
    ensures
        k2 * m + j2 < k * m + j,
{
    assert(k2 * m + j2 < k * m + j) by (nonlinear_arith)
        requires
            0 <= k2 < k,
            0 <= j2 < m,
            0 <= j,
    ;
}

proof fn lemma_module_names()
    ensures
        forall|k: int| 0 <= k < module_names().len() ==> module_preference(module_names()[k]) == k
            && !(#[trigger] module_names()[k]).contains('/'),
{
    reveal_strlit("opensc-pkcs11.so");
    reveal_strlit("libykcs11.so.2");
    reveal_strlit("libykcs11.so");
    reveal_strlit("libsofthsm2.so");
    reveal_strlit("p11-kit-proxy.so");
    let ns = module_names();
    assert(ns[0][0] != ns[4][0]);
    assert(ns[1][3] != ns[3][3]);
    assert forall|k: int| 0 <= k < ns.len() implies !(#[trigger] ns[k]).contains('/') by {
        if ns[k].contains('/') {
            let i = choose|i: int| 0 <= i < ns[k].len() && ns[k][i] == '/';
            assert(ns[k][i] == '/');
        }
    }
}

/// With no module configured, the search takes concrete token modules before
/// the p11-kit aggregate, in the order OpenSC, YubiKey, SoftHSM: the module
/// chosen was reported as existing, and no module of a more preferred kind
/// was reported in any search directory.
pub proof fn module_search_prefers_concrete_modules(
    flags: Seq<bool>,
    d: Seq<char>,
    n: Seq<char>,
    d2: Seq<char>,
    n2: Seq<char>,
)
    requires
        module_choice(None, flags, Some(join_path(d, n))),
        module_preference(n) < 5,
        module_preference(n2) < module_preference(n),
    ensures
        reported(module_candidates(module_names(), module_dirs()), flags, join_path(d, n)),
        !reported(module_candidates(module_names(), module_dirs()), flags, join_path(d2, n2)),
{
    let c = module_candidates(module_names(), module_dirs());
    let m = module_dirs().len() as int;
    lemma_module_names();
    reveal_strlit("opensc-pkcs11.so");
    reveal_strlit("libykcs11.so.2");
    reveal_strlit("libykcs11.so");
    reveal_strlit("libsofthsm2.so");
    reveal_strlit("p11-kit-proxy.so");
    let r = join_path(d, n);
    let i = choose|i: int|
        0 <= i < c.len() && #[trigger] flags[i] && c[i] == r && forall|j: int| 0 <= j < i ==> !flags[j];
    let (k, j) = lemma_candidate_at(module_names(), module_dirs(), i);
    assert(!n.contains('/')) by {
        assert(n == module_names()[module_preference(n)]);
    }
    lemma_join_injective(d, n, module_dirs()[j], module_names()[k]);
    assert(module_preference(n) == k);
    if reported(c, flags, join_path(d2, n2)) {
        let i2 = choose|i2: int| 0 <= i2 < c.len() && i2 < flags.len() && #[trigger] flags[i2] && c[i2]
            == join_path(d2, n2);
        let (k2, j2) = lemma_candidate_at(module_names(), module_dirs(), i2);
        assert(!n2.contains('/')) by {
            assert(n2 == module_names()[module_preference(n2)]);
        }
        lemma_join_injective(d2, n2, module_dirs()[j2], module_names()[k2]);
        assert(module_preference(n2) == k2);
        lemma_earlier_row(k2, j2, k, j, m);
        assert(!flags[i2]);
    }
}

/// No PKCS#11 module was found.
#[derive(Debug, PartialEq, Eq)]
pub enum ModuleError {
    NoModule,
}

/// What [`pkcs11_module_path`] may answer for a `GP_PKCS11_MODULE` value `env`, when
/// the filesystem reports the candidates flagged in `flags` as existing:
/// a value with a `/` is used as it is; a bare file name is looked up under
/// the search directories and otherwise handed to the loader as it is; no
/// (or an empty) value searches the known modules.
pub open spec fn module_choice(env: Option<Seq<char>>, flags: Seq<bool>, r: Option<Seq<char>>) -> bool {
    match env {
        Some(m) if m.len() > 0 => if m.contains('/') {
            r == Some(m)
        } else {
            exists|f: Option<Seq<char>>|
                first_flagged(module_candidates(seq![m], module_dirs()), flags, f) && r == Some(
                    match f {
                        Some(p) => p,
                        None => m,
                    },
                )
        },
        _ => first_flagged(module_candidates(module_names(), module_dirs()), flags, r),
    }
}

pub open spec fn opt_str_ref(o: Option<&str>) -> Option<Seq<char>> {
    match o {
        Some(s) => Some(s@),
        None => None,
    }
}

pub open spec fn ok_str(r: &Result<String, ModuleError>) -> Option<Seq<char>> {
    match r {
        Ok(p) => Some(p@),
        Err(_) => None,
    }
}

fn has_char(s: &str, c: char) -> (r: bool)
    ensures
        r == s@.contains(c),
{
    let v = chars_of(s);
    let mut i: usize = 0;
    while i < v.len()
        invariant
            v@ == s@,
            i <= v@.len(),
            forall|j: int| 0 <= j < i ==> v@[j] != c,
        decreases v.len() - i,
    {
        if v[i] == c {
            assert(s@[i as int] == c);
            return true;
        }
        i = i + 1;
    }
    false
}

/// Resolve the PKCS#11 module from the value of `GP_PKCS11_MODULE` (if set).
pub fn pkcs11_module_path(env: Option<&str>) -> (r: Result<String, ModuleError>)
    ensures
        exists|flags: Seq<bool>|
            #[trigger] module_choice(
                opt_str_ref(env),
                flags,
                ok_str(&r),
            ),
{
    match env {
        Some(m) => {
            if !m.is_empty() {
                if has_char(m, '/') {
                    let r = m.to_owned();
                    assert(module_choice(Some(m@), Seq::empty(), Some(r@)));
                    assert(ok_str(&Ok::<String, ModuleError>(r)) == Some(r@));
                    return Ok(r);
                }
                let mut names: Vec<String> = Vec::new();
                names.push(m.to_owned());
                assert(str_views(names@) =~= seq![m@]);
                let found = find_module_file(&names);
                let ghost f = opt_str(found);
                let r = match found {
                    Some(p) => p,
                    None => m.to_owned(),
                };
                assert(exists|flags: Seq<bool>| module_choice(Some(m@), flags, Some(r@))) by {
                    let flags = choose|flags: Seq<bool>|
                        first_flagged(module_candidates(seq![m@], module_dirs()), flags, f);
                    assert(first_flagged(module_candidates(seq![m@], module_dirs()), flags, f));
                    assert(module_choice(Some(m@), flags, Some(r@)));
                }
                assert(ok_str(&Ok::<String, ModuleError>(r)) == Some(r@));
                return Ok(r);
            }
        },
        None => {},
    }
    let names = module_names_exec();
    let found = find_module_file(&names);
    let ghost f = opt_str(found);
    let r = match found {
        Some(p) => Ok(p),
        None => Err(ModuleError::NoModule),
    };
    assert(ok_str(&r) == f);
    proof {
        let flags = choose|flags: Seq<bool>|
            first_flagged(module_candidates(module_names(), module_dirs()), flags, f);
        assert(module_choice(opt_str_ref(env), flags, ok_str(&r)));
    }
    r
}

// ---------------------------------------------------------------------------
// login plan
// ---------------------------------------------------------------------------

/// The decoded `token` path attribute of a URI.
pub open spec fn uri_token(uri: Seq<char>) -> Option<Seq<char>> {
    decoded(last_value(path_attrs(uri), "token"@))
}

/// The decoded `object` (label) path attribute of a URI.
pub open spec fn uri_object(uri: Seq<char>) -> Option<Seq<char>> {
    decoded(last_value(path_attrs(uri), "object"@))
}

/// The decoded `id` path attribute of a URI, as bytes.
pub open spec fn uri_id(uri: Seq<char>) -> Option<Seq<u8>> {
    decoded_bytes(last_value(path_attrs(uri), "id"@))
}

/// The decoded `pin-value` query attribute of a URI.
pub open spec fn uri_pin(uri: Seq<char>) -> Option<Seq<char>> {
    decoded(last_value(query_attrs(uri), "pin-value"@))
}

/// What to log in with and what to look for on the token.
#[derive(Debug)]
pub struct LoginPlan {
    /// The user PIN.
    pub pin: String,
    /// The label of the token to use; any token when `None`.
    pub token: Option<String>,
    /// `CKA_ID` of the certificate object, when the URI names one.
    pub cert_id: Option<Vec<u8>>,
    /// `CKA_LABEL` of the certificate object, when the URI names one.
    pub cert_label: Option<String>,
    /// `CKA_ID` of the private key object, when the URI names one.
    pub key_id: Option<Vec<u8>>,
    /// `CKA_LABEL` of the private key object, when the URI names one.
    pub key_label: Option<String>,
}

#[derive(Debug, PartialEq, Eq)]
pub enum LoginPlanError {
    /// The certificate or key URI is not a `pkcs11:` URI.
    NotPkcs11,
    /// No PIN was given and neither URI carries a `pin-value`.
    PinRequired,
}

pub open spec fn first_some<T>(a: Option<T>, b: Option<T>) -> Option<T> {
    match a {
        Some(x) => Some(x),
        None => b,
    }
}

/// The PIN used: one given explicitly wins over any `pin-value`, and the
/// certificate URI's `pin-value` wins over the key URI's; the token label
/// likewise comes from the certificate URI before the key URI.
pub proof fn explicit_pin_wins(given: Seq<char>, cert_pin: Option<Seq<char>>, key_pin: Option<Seq<char>>, c: Seq<char>)
    ensures
        first_some(Some(given), first_some(cert_pin, key_pin)) == Some(given),
        first_some(None, first_some(Some(c), key_pin)) == Some(c),
        first_some(None::<Seq<char>>, first_some(None, key_pin)) == key_pin,
{
}

/// The login plan for a certificate URI, an optional key URI (the
/// certificate URI when absent) and an optional PIN, which overrides any
/// `pin-value`.
pub fn login_plan(cert_uri: &str, key_uri: Option<&str>, pin: Option<&str>) -> (r: Result<
    LoginPlan,
    LoginPlanError,
>)
    requires
        is_pkcs11_uri_spec(cert_uri@) ==> uri_decodes(cert_uri@),
        match key_uri {
            Some(k) => is_pkcs11_uri_spec(k@) ==> uri_decodes(k@),
            None => true,
        },
    ensures
        ({
            let key = match key_uri {
                Some(k) => k@,
                None => cert_uri@,
            };
            let want_pin = first_some(opt_str_ref(pin), first_some(uri_pin(cert_uri@), uri_pin(key)));
            match r {
                Ok(p) => {
                    &&& is_pkcs11_uri_spec(cert_uri@)
                    &&& is_pkcs11_uri_spec(key)
                    &&& want_pin == Some(p.pin@)
                    &&& opt_view(p.token) == first_some(uri_token(cert_uri@), uri_token(key))
                    &&& opt_bytes(p.cert_id) == uri_id(cert_uri@)
                    &&& opt_view(p.cert_label) == uri_object(cert_uri@)
                    &&& opt_bytes(p.key_id) == uri_id(key)
                    &&& opt_view(p.key_label) == uri_object(key)
                },
                Err(LoginPlanError::NotPkcs11) => !is_pkcs11_uri_spec(cert_uri@)
                    || !is_pkcs11_uri_spec(key),
                Err(LoginPlanError::PinRequired) => is_pkcs11_uri_spec(cert_uri@)
                    && is_pkcs11_uri_spec(key) && want_pin is None,
            }
        }),
{
    let cert_u = match parse_pkcs11_uri(cert_uri) {
        Ok(u) => u,
        Err(Pkcs11UriError::NotPkcs11) => {
            return Err(LoginPlanError::NotPkcs11);
        },
    };
    let key_u = match key_uri {
        Some(k) => parse_pkcs11_uri(k),
        None => parse_pkcs11_uri(cert_uri),
    };
    let key_u = match key_u {
        Ok(u) => u,
        Err(Pkcs11UriError::NotPkcs11) => {
            return Err(LoginPlanError::NotPkcs11);
        },
    };
    let pin_s: String = match pin {
        Some(p) => p.to_owned(),
        None => match cert_u.pin {
            Some(p) => p,
            None => match key_u.pin {
                Some(p) => p,
                None => {
                    return Err(LoginPlanError::PinRequired);
                },
            },
        },
    };
    let token = match cert_u.token {
        Some(t) => Some(t),
        None => key_u.token,
    };
    Ok(
        LoginPlan {
            pin: pin_s,
            token,
            cert_id: cert_u.id,
            cert_label: cert_u.object,
            key_id: key_u.id,
            key_label: key_u.object,
        },
    )
}

/// Whether a slot whose token carries `label` is the one to use: any token
/// when no label is wanted, else the one whose trimmed label is the wanted
/// one.
pub fn token_matches(label: &str, want: Option<&str>) -> (r: bool)
    ensures
        r == match want {
            Some(w) => trim(label@) == w@,
            None => true,
        },
{
    match want {
        Some(w) => {
            let t = trim_vec(&chars_of(label));
            crate::text::eq_str(&t, w)
        },
        None => true,
    }
}

} // verus!
