//! Client certificates on smart cards / tokens, as listed by `pkcs11-tool -O`:
//! the parser of that listing and the labels and URIs built from each entry.

use vstd::prelude::*;
use crate::paths::{existing, flagged, str_views};
use crate::text::{
    chars_of, contains, contains_str, eq_str, extend, find, find_seq, has_prefix_str, lit,
    slice, split, split_vec, starts_with, string_of, strip_all_prefix, strip_all_prefix_vec,
    strip_prefix, strip_prefix_str, trim, trim_vec, views, words, words_vec,
};

verus! {

/// A certificate object found on a token.
#[derive(Debug, Clone, PartialEq, Default)]
pub struct CertInfo {
    /// PKCS#11 token manufacturer (e.g. `piv_II`).
    pub manufacturer: String,
    /// Object id in hex without `0x` (e.g. `03`), as used in `id=%03`.
    pub id: String,
    pub label: String,
    pub subject: String,
    /// Token label (PIV cardholder).
    pub token: String,
    /// Friendly device model, e.g. "YubiKey" (from the slot description).
    pub model: String,
    /// PIV slot purpose, e.g. "Key Management".
    pub slot: String,
    /// Certificate expiry as `YYYY-MM-DD` (best-effort).
    pub expiry: String,
}

// ---------------------------------------------------------------------------
// labels built from an entry
// ---------------------------------------------------------------------------

/// The first `,`-separated part of a subject that (trimmed) starts with `CN=`,
/// with that prefix removed.
pub open spec fn first_cn(parts: Seq<Seq<char>>) -> Option<Seq<char>>
    decreases parts.len(),
{
    if parts.len() == 0 {
        None
    } else {
        match strip_prefix(trim(parts[0]), "CN="@) {
            Some(v) => Some(v),
            None => first_cn(parts.drop_first()),
        }
    }
}

/// Common name of a subject DN, or the whole (trimmed) subject when it has none.
pub open spec fn cn_of(subject: Seq<char>) -> Seq<char> {
    match first_cn(split(subject, ',')) {
        Some(v) => v,
        None => trim(subject),
    }
}

/// PIV slot code for an opensc object id (01 -> 9a, 03 -> 9d, ...).
pub open spec fn piv_slot_code_of(id: Seq<char>) -> Seq<char> {
    if id == "01"@ {
        "9a"@
    } else if id == "02"@ {
        "9c"@
    } else if id == "03"@ {
        "9d"@
    } else if id == "04"@ {
        "9e"@
    } else {
        id
    }
}

/// PIV slot purpose for an opensc object id.
pub open spec fn piv_slot_of(id: Seq<char>) -> Seq<char> {
    if id == "01"@ {
        "PIV Authentication"@
    } else if id == "02"@ {
        "Digital Signature"@
    } else if id == "03"@ {
        "Key Management"@
    } else if id == "04"@ {
        "Card Authentication"@
    } else {
        "id "@ + id
    }
}

/// The words of `ws` joined by single spaces, at most the first two.
pub open spec fn join_first_two(ws: Seq<Seq<char>>) -> Seq<char> {
    if ws.len() == 0 {
        Seq::empty()
    } else if ws.len() == 1 {
        ws[0]
    } else {
        ws[0] + " "@ + ws[1]
    }
}

/// Friendly device name from a PKCS#11 slot description.
pub open spec fn friendly_model_of(desc: Seq<char>) -> Seq<char> {
    let d = trim(desc);
    if contains(d, "YubiKey"@) {
        "YubiKey"@
    } else if d.len() == 0 {
        "smart card"@
    } else {
        join_first_two(words(d))
    }
}

/// Dropdown label: `<cn> — <model> <slot code> (slot <id>)`.
pub open spec fn display_of(subject: Seq<char>, model: Seq<char>, id: Seq<char>) -> Seq<char> {
    let m = if model.len() == 0 {
        "smart card"@
    } else {
        model
    };
    cn_of(subject) + " — "@ + m + " "@ + piv_slot_code_of(id) + " (slot "@ + id + ")"@
}

/// RFC 7512 URI that selects a certificate by manufacturer and id.
pub open spec fn cert_uri_of(manufacturer: Seq<char>, id: Seq<char>) -> Seq<char> {
    "pkcs11:manufacturer="@ + manufacturer + ";id=%"@ + id + ";type=cert"@
}

fn first_cn_exec(parts: &Vec<Vec<char>>) -> (r: Option<Vec<char>>)
    ensures
        match r {
            Some(v) => first_cn(views(parts@)) == Some(v@),
            None => first_cn(views(parts@)) is None,
        },
{
    let mut i: usize = 0;
    assert(views(parts@).skip(0) =~= views(parts@));
    while i < parts.len()
        invariant
            i <= parts@.len(),
            first_cn(views(parts@)) == first_cn(views(parts@).skip(i as int)),
        decreases parts.len() - i,
    {
        let t = trim_vec(&parts[i]);
        assert(views(parts@).skip(i as int)[0] == parts@[i as int]@);
        match strip_prefix_str(&t, "CN=") {
            Some(v) => {
                return Some(v);
            },
            None => {
                assert(views(parts@).skip(i as int).drop_first() =~= views(parts@).skip(i + 1));
            },
        }
        i = i + 1;
    }
    assert(views(parts@).skip(i as int) =~= Seq::<Seq<char>>::empty());
    None
}

pub fn piv_slot_code(id: &str) -> (r: String)
    ensures
        r@ == piv_slot_code_of(id@),
{
    let v = chars_of(id);
    if eq_str(&v, "01") {
        String::from_str("9a")
    } else if eq_str(&v, "02") {
        String::from_str("9c")
    } else if eq_str(&v, "03") {
        String::from_str("9d")
    } else if eq_str(&v, "04") {
        String::from_str("9e")
    } else {
        String::from_str(id)
    }
}

pub fn piv_slot(id: &str) -> (r: String)
    ensures
        r@ == piv_slot_of(id@),
{
    let v = chars_of(id);
    if eq_str(&v, "01") {
        String::from_str("PIV Authentication")
    } else if eq_str(&v, "02") {
        String::from_str("Digital Signature")
    } else if eq_str(&v, "03") {
        String::from_str("Key Management")
    } else if eq_str(&v, "04") {
        String::from_str("Card Authentication")
    } else {
        let mut out = lit("id ");
        extend(&mut out, &v);
        string_of(&out)
    }
}

pub fn friendly_model(desc: &str) -> (r: String)
    ensures
        r@ == friendly_model_of(desc@),
{
    let d = trim_vec(&chars_of(desc));
    if contains_str(&d, "YubiKey") {
        String::from_str("YubiKey")
    } else if d.len() == 0 {
        String::from_str("smart card")
    } else {
        let ws = words_vec(&d);
        let mut out: Vec<char> = Vec::new();
        if ws.len() >= 1 {
            extend(&mut out, &ws[0]);
        }
        if ws.len() >= 2 {
            let sp = lit(" ");
            extend(&mut out, &sp);
            extend(&mut out, &ws[1]);
        }
        assert(out@ =~= join_first_two(views(ws@)));
        string_of(&out)
    }
}

impl CertInfo {
    /// Common name pulled out of the subject DN.
    pub fn cn(&self) -> (r: String)
        ensures
            r@ == cn_of(self.subject@),
    {
        let s = chars_of(self.subject.as_str());
        let parts = split_vec(&s, ',');
        match first_cn_exec(&parts) {
            Some(v) => string_of(&v),
            None => string_of(&trim_vec(&s)),
        }
    }

    /// Dropdown label, e.g. "Jane Doe — YubiKey 9d (slot 03)".
    pub fn display(&self) -> (r: String)
        ensures
            r@ == display_of(self.subject@, self.model@, self.id@),
    {
        let cn = self.cn();
        let mut out = chars_of(cn.as_str());
        extend(&mut out, &lit(" — "));
        if self.model.as_str().unicode_len() == 0 {
            extend(&mut out, &lit("smart card"));
        } else {
            extend(&mut out, &chars_of(self.model.as_str()));
        }
        extend(&mut out, &lit(" "));
        let code = piv_slot_code(self.id.as_str());
        extend(&mut out, &chars_of(code.as_str()));
        extend(&mut out, &lit(" (slot "));
        extend(&mut out, &chars_of(self.id.as_str()));
        extend(&mut out, &lit(")"));
        string_of(&out)
    }

    /// Minimal RFC 7512 URI that uniquely selects this cert (no PIN).
    pub fn uri(&self) -> (r: String)
        ensures
            r@ == cert_uri_of(self.manufacturer@, self.id@),
    {
        cert_uri_for(self.manufacturer.as_str(), self.id.as_str())
    }
}

/// The minimal RFC 7512 URI selecting the certificate `id` of a token made
/// by `manufacturer` (no PIN).
pub fn cert_uri_for(manufacturer: &str, id: &str) -> (r: String)
    ensures
        r@ == cert_uri_of(manufacturer@, id@),
{
    let mut out = lit("pkcs11:manufacturer=");
    extend(&mut out, &chars_of(manufacturer));
    extend(&mut out, &lit(";id=%"));
    extend(&mut out, &chars_of(id));
    extend(&mut out, &lit(";type=cert"));
    string_of(&out)
}

// ---------------------------------------------------------------------------
// the `pkcs11-tool -O` listing
// ---------------------------------------------------------------------------

/// Index of the first `;` or `?` in `s`.
pub open spec fn value_end(s: Seq<char>) -> int
    decreases s.len(),
{
    if s.len() == 0 {
        0
    } else if s[0] == ';' || s[0] == '?' {
        0
    } else {
        1 + value_end(s.drop_first())
    }
}

/// The value of `key` in a `;`-delimited PKCS#11 URI: what follows the first
/// occurrence of `key`, up to the next `;` or `?`.
pub open spec fn field_of(uri: Seq<char>, key: Seq<char>) -> Option<Seq<char>> {
    match find(uri, key) {
        Some(i) => {
            let rest = uri.skip(i + key.len());
            Some(rest.take(value_end(rest)))
        },
        None => None,
    }
}

proof fn lemma_value_end(s: Seq<char>, k: int)
    requires
        0 <= k <= s.len(),
        forall|j: int| 0 <= j < k ==> s[j] != ';' && s[j] != '?',
        k == s.len() || s[k] == ';' || s[k] == '?',
    ensures
        value_end(s) == k,
    decreases k,
{
    if k > 0 {
        lemma_value_end(s.drop_first(), k - 1);
    }
}

/// Extract `key`'s value from a `;`-delimited PKCS#11 URI.
pub fn field(uri: &[char], key: &str) -> (r: Option<Vec<char>>)
    ensures
        match r {
            Some(v) => field_of(uri@, key@) == Some(v@),
            None => field_of(uri@, key@) is None,
        },
{
    let k = chars_of(key);
    match find_seq(uri, &k) {
        Some(i) => {
            proof {
                crate::text::lemma_find_from_spec(uri@, k@, 0);
            }
            let n = uri.len();
            assert(i + k@.len() <= n);
            let start = i + k.len();
            let mut j = start;
            while j < n && uri[j] != ';' && uri[j] != '?'
                invariant
                    start <= j <= n,
                    n == uri@.len(),
                    forall|m: int| start <= m < j ==> uri@[m] != ';' && uri@[m] != '?',
                decreases n - j,
            {
                j = j + 1;
            }
            let ghost rest = uri@.skip(start as int);
            proof {
                assert forall|m: int| 0 <= m < j - start implies rest[m] != ';' && rest[m] != '?' by {
                    assert(rest[m] == uri@[start + m]);
                }
                if j < n {
                    assert(rest[j - start] == uri@[j as int]);
                }
                lemma_value_end(rest, j - start);
            }
            let v = slice(uri, start, j);
            assert(v@ =~= rest.take(j - start));
            Some(v)
        },
        None => None,
    }
}

/// Parser state: inside a certificate block, the pending label, subject and
/// URI lines, and the certificates found so far as
/// `(manufacturer, id, label, subject)`.
pub type ParseState = (bool, Seq<char>, Seq<char>, Seq<char>, Seq<(Seq<char>, Seq<char>, Seq<char>, Seq<char>)>);

/// Close the pending block: record a certificate if its URI carries a
/// manufacturer and a non-empty id, then clear the pending lines.
pub open spec fn flush(st: ParseState) -> ParseState {
    let certs = match (field_of(st.3, "manufacturer="@), field_of(st.3, "id=%"@)) {
        (Some(m), Some(id)) => if id.len() > 0 {
            st.4.push((m, id, st.1, st.2))
        } else {
            st.4
        },
        _ => st.4,
    };
    (st.0, Seq::empty(), Seq::empty(), Seq::empty(), certs)
}

/// A line that starts a non-certificate object block.
pub open spec fn is_other_object(t: Seq<char>) -> bool {
    starts_with(t, "Public Key"@) || starts_with(t, "Private Key"@) || starts_with(t, "Data object"@)
        || starts_with(t, "Profile object"@)
}

/// Consume one line of the listing.
pub open spec fn step(st: ParseState, line: Seq<char>) -> ParseState {
    let t = trim(line);
    if starts_with(t, "Certificate Object"@) {
        let f = flush(st);
        (true, f.1, f.2, f.3, f.4)
    } else if is_other_object(t) {
        let f = if st.0 {
            flush(st)
        } else {
            st
        };
        (false, f.1, f.2, f.3, f.4)
    } else if !st.0 {
        st
    } else if strip_prefix(t, "label:"@) is Some {
        (st.0, trim(strip_prefix(t, "label:"@)->0), st.2, st.3, st.4)
    } else if strip_prefix(t, "subject:"@) is Some {
        (
            st.0,
            st.1,
            trim(strip_all_prefix(trim(strip_prefix(t, "subject:"@)->0), "DN:"@)),
            st.3,
            st.4,
        )
    } else if strip_prefix(t, "uri:"@) is Some {
        (st.0, st.1, st.2, trim(strip_prefix(t, "uri:"@)->0), st.4)
    } else {
        st
    }
}

pub open spec fn run(lines: Seq<Seq<char>>, st: ParseState) -> ParseState
    decreases lines.len(),
{
    if lines.len() == 0 {
        st
    } else {
        run(lines.drop_first(), step(st, lines[0]))
    }
}

pub open spec fn initial_state() -> ParseState {
    (false, Seq::empty(), Seq::empty(), Seq::empty(), Seq::empty())
}

/// The certificates of a `pkcs11-tool -O` listing, as
/// `(manufacturer, id, label, subject)`, in listing order.
pub open spec fn parse_listing(text: Seq<char>) -> Seq<(Seq<char>, Seq<char>, Seq<char>, Seq<char>)> {
    flush(run(split(text, '\n'), initial_state())).4
}

/// How many lines of a listing open a certificate section.
pub open spec fn cert_sections(ls: Seq<Seq<char>>) -> nat
    decreases ls.len(),
{
    if ls.len() == 0 {
        0
    } else if starts_with(trim(ls[0]), "Certificate Object"@) {
        1 + cert_sections(ls.drop_first())
    } else {
        cert_sections(ls.drop_first())
    }
}

/// Outside a certificate section no URI is pending, and every certificate
/// found has an id.
pub open spec fn parse_state_ok(st: ParseState) -> bool {
    &&& !st.0 ==> st.3.len() == 0
    &&& forall|k: int| 0 <= k < st.4.len() ==> (#[trigger] st.4[k]).1.len() > 0
}

proof fn lemma_flush(st: ParseState)
    requires
        parse_state_ok(st),
    ensures
        flush(st).4.len() <= st.4.len() + (if st.0 { 1int } else { 0int }),
        flush(st).3.len() == 0,
        flush(st).4.len() >= st.4.len(),
        forall|k: int| 0 <= k < flush(st).4.len() ==> (#[trigger] flush(st).4[k]).1.len() > 0,
{
    if !st.0 {
        reveal_strlit("manufacturer=");
        assert(field_of(st.3, "manufacturer="@) is None);
    }
    let f = flush(st);
    assert forall|k: int| 0 <= k < f.4.len() implies (#[trigger] f.4[k]).1.len() > 0 by {
        if k < st.4.len() {
            assert(f.4[k] == st.4[k]);
        }
    }
}

proof fn lemma_run_bound(ls: Seq<Seq<char>>, st: ParseState)
    requires
        parse_state_ok(st),
    ensures
        flush(run(ls, st)).4.len() <= st.4.len() + (if st.0 { 1int } else { 0int }) + cert_sections(ls),
        forall|k: int|
            0 <= k < flush(run(ls, st)).4.len() ==> (#[trigger] flush(run(ls, st)).4[k]).1.len() > 0,
    decreases ls.len(),
{
    if ls.len() == 0 {
        lemma_flush(st);
    } else {
        let t = trim(ls[0]);
        let st1 = step(st, ls[0]);
        lemma_flush(st);
        if starts_with(t, "Certificate Object"@) {
        } else if is_other_object(t) {
        } else if !st.0 {
        } else {
            assert(st1.0 && st1.4 == st.4);
        }
        assert(parse_state_ok(st1));
        lemma_run_bound(ls.drop_first(), st1);
    }
}

/// A listing yields at most one certificate per `Certificate Object`
/// section, and every certificate it yields has an id.
pub proof fn one_certificate_per_section(text: Seq<char>)
    ensures
        parse_listing(text).len() <= cert_sections(split(text, '\n')),
        forall|k: int| 0 <= k < parse_listing(text).len() ==> (#[trigger] parse_listing(text)[k]).1.len() > 0,
{
    lemma_run_bound(split(text, '\n'), initial_state());
}

/// The fields of a parsed entry that the listing fills in.
pub open spec fn listed(c: CertInfo) -> (Seq<char>, Seq<char>, Seq<char>, Seq<char>) {
    (c.manufacturer@, c.id@, c.label@, c.subject@)
}

/// The fields the listing leaves empty (filled in later from the token).
pub open spec fn enrichment_empty(c: CertInfo) -> bool {
    c.token@.len() == 0 && c.model@.len() == 0 && c.slot@.len() == 0 && c.expiry@.len() == 0
}

fn flush_exec(
    label: &mut Vec<char>,
    subject: &mut Vec<char>,
    uri: &mut Vec<char>,
    certs: &mut Vec<CertInfo>,
    Ghost(in_cert): Ghost<bool>,
    Ghost(found): Ghost<Seq<(Seq<char>, Seq<char>, Seq<char>, Seq<char>)>>,
)
    requires
        old(certs)@.map_values(|c: CertInfo| listed(c)) == found,
        forall|i: int| 0 <= i < old(certs)@.len() ==> enrichment_empty(#[trigger] old(certs)@[i]),
    ensures
        ({
            let f = flush((in_cert, old(label)@, old(subject)@, old(uri)@, found));
            &&& final(label)@ == f.1
            &&& final(subject)@ == f.2
            &&& final(uri)@ == f.3
            &&& final(certs)@.map_values(|c: CertInfo| listed(c)) == f.4
            &&& forall|i: int| 0 <= i < final(certs)@.len() ==> enrichment_empty(#[trigger] final(certs)@[i])
        }),
{
    let m = field(uri, "manufacturer=");
    let id = field(uri, "id=%");
    match (m, id) {
        (Some(m), Some(id)) => {
            if id.len() > 0 {
                let ghost old_certs = certs@;
                let c = CertInfo {
                    manufacturer: string_of(&m),
                    id: string_of(&id),
                    label: string_of(label),
                    subject: string_of(subject),
                    token: String::new(),
                    model: String::new(),
                    slot: String::new(),
                    expiry: String::new(),
                };
                certs.push(c);
                assert(certs@.map_values(|c: CertInfo| listed(c)) =~= old_certs.map_values(
                    |c: CertInfo| listed(c),
                ).push((m@, id@, old(label)@, old(subject)@)));
            }
        },
        _ => {},
    }
    label.clear();
    subject.clear();
    uri.clear();
    assert(label@ =~= Seq::<char>::empty());
    assert(subject@ =~= Seq::<char>::empty());
    assert(uri@ =~= Seq::<char>::empty());
}

/// Parse the certificate objects out of a `pkcs11-tool -O` listing. Each
/// entry carries the manufacturer and id from its URI plus its label and
/// subject; the token, model, slot and expiry are left empty.
pub fn parse(text: &str) -> (r: Vec<CertInfo>)
    ensures
        r@.map_values(|c: CertInfo| listed(c)) == parse_listing(text@),
        forall|i: int| 0 <= i < r@.len() ==> enrichment_empty(#[trigger] r@[i]),
{
    let all = chars_of(text);
    let lines = split_vec(&all, '\n');
    let ghost ls = views(lines@);
    let mut in_cert = false;
    let mut label: Vec<char> = Vec::new();
    let mut subject: Vec<char> = Vec::new();
    let mut uri: Vec<char> = Vec::new();
    let mut certs: Vec<CertInfo> = Vec::new();
    let mut i: usize = 0;
    assert(ls.skip(0) =~= ls);
    assert(certs@.map_values(|c: CertInfo| listed(c)) =~= Seq::<
        (Seq<char>, Seq<char>, Seq<char>, Seq<char>),
    >::empty());
    while i < lines.len()
        invariant
            ls == views(lines@),
            i <= lines@.len(),
            run(ls, initial_state()) == run(
                ls.skip(i as int),
                (in_cert, label@, subject@, uri@, certs@.map_values(|c: CertInfo| listed(c))),
            ),
            forall|j: int| 0 <= j < certs@.len() ==> enrichment_empty(#[trigger] certs@[j]),
        decreases lines.len() - i,
    {
        let ghost st = (in_cert, label@, subject@, uri@, certs@.map_values(|c: CertInfo| listed(c)));
        assert(ls.skip(i as int).drop_first() =~= ls.skip(i + 1));
        assert(ls.skip(i as int)[0] == lines@[i as int]@);
        let t = trim_vec(&lines[i]);
        if has_prefix_str(&t, "Certificate Object") {
            flush_exec(&mut label, &mut subject, &mut uri, &mut certs, Ghost(in_cert), Ghost(st.4));
            in_cert = true;
        } else if has_prefix_str(&t, "Public Key") || has_prefix_str(&t, "Private Key")
            || has_prefix_str(&t, "Data object") || has_prefix_str(&t, "Profile object") {
            if in_cert {
                flush_exec(&mut label, &mut subject, &mut uri, &mut certs, Ghost(in_cert), Ghost(st.4));
            }
            in_cert = false;
        } else if in_cert {
            match strip_prefix_str(&t, "label:") {
                Some(v) => {
                    label = trim_vec(&v);
                },
                None => match strip_prefix_str(&t, "subject:") {
                    Some(v) => {
                        let v1 = trim_vec(&v);
                        let v2 = strip_all_prefix_vec(&v1, &lit("DN:"));
                        subject = trim_vec(&v2);
                    },
                    None => match strip_prefix_str(&t, "uri:") {
                        Some(v) => {
                            uri = trim_vec(&v);
                        },
                        None => {},
                    },
                },
            }
        }
        assert((in_cert, label@, subject@, uri@, certs@.map_values(|c: CertInfo| listed(c)))
            == step(st, ls[i as int]));
        i = i + 1;
    }
    let ghost st = (in_cert, label@, subject@, uri@, certs@.map_values(|c: CertInfo| listed(c)));
    assert(ls.skip(i as int) =~= Seq::<Seq<char>>::empty());
    flush_exec(&mut label, &mut subject, &mut uri, &mut certs, Ghost(in_cert), Ghost(st.4));
    certs
}

// ---------------------------------------------------------------------------
// module picker
// ---------------------------------------------------------------------------

/// Common PKCS#11 module locations offered in the module picker: the
/// Flatpak-bundled module first, then host locations, concrete token modules
/// before the p11-kit aggregate.
pub open spec fn module_picker_candidates() -> Seq<Seq<char>> {
    seq![
        "/app/lib/pkcs11/opensc-pkcs11.so"@,
        "/app/lib/opensc-pkcs11.so"@,
        "/usr/lib64/pkcs11/opensc-pkcs11.so"@,
        "/usr/lib/x86_64-linux-gnu/opensc-pkcs11.so"@,
        "/usr/lib/pkcs11/opensc-pkcs11.so"@,
        "/usr/lib64/opensc-pkcs11.so"@,
        "/usr/lib64/pkcs11/libykcs11.so"@,
        "/usr/lib/x86_64-linux-gnu/libykcs11.so.2"@,
        "/usr/lib64/libykcs11.so"@,
        "/usr/lib64/softhsm/libsofthsm2.so"@,
        "/usr/lib/softhsm/libsofthsm2.so"@,
        "/usr/lib/x86_64-linux-gnu/softhsm/libsofthsm2.so"@,
        "/usr/lib64/p11-kit-proxy.so"@,
        "/usr/lib/x86_64-linux-gnu/pkcs11/p11-kit-proxy.so"@,
    ]
}

/// The p11-kit aggregate modules among the picker's candidates.
pub open spec fn is_p11_kit_proxy(p: Seq<char>) -> bool {
    p == module_picker_candidates()[12] || p == module_picker_candidates()[13]
}

proof fn lemma_candidates_distinct()
    ensures
        forall|i: int, j: int|
            0 <= i < j < module_picker_candidates().len() ==> module_picker_candidates()[i]
                != module_picker_candidates()[j],
{
    reveal_strlit("/app/lib/pkcs11/opensc-pkcs11.so");
    reveal_strlit("/app/lib/opensc-pkcs11.so");
    reveal_strlit("/usr/lib64/pkcs11/opensc-pkcs11.so");
    reveal_strlit("/usr/lib/x86_64-linux-gnu/opensc-pkcs11.so");
    reveal_strlit("/usr/lib/pkcs11/opensc-pkcs11.so");
    reveal_strlit("/usr/lib64/opensc-pkcs11.so");
    reveal_strlit("/usr/lib64/pkcs11/libykcs11.so");
    reveal_strlit("/usr/lib/x86_64-linux-gnu/libykcs11.so.2");
    reveal_strlit("/usr/lib64/libykcs11.so");
    reveal_strlit("/usr/lib64/softhsm/libsofthsm2.so");
    reveal_strlit("/usr/lib/softhsm/libsofthsm2.so");
    reveal_strlit("/usr/lib/x86_64-linux-gnu/softhsm/libsofthsm2.so");
    reveal_strlit("/usr/lib64/p11-kit-proxy.so");
    reveal_strlit("/usr/lib/x86_64-linux-gnu/pkcs11/p11-kit-proxy.so");
    let c = module_picker_candidates();
    assert(c[0][1] != c[4][1]);
    assert(c[5][11] != c[12][11]);
    assert forall|i: int, j: int| 0 <= i < j < c.len() implies c[i] != c[j] by {
        if c[i] == c[j] {
            assert(c[i].len() == c[j].len());
        }
    }
}

/// Whatever exists on the system, the modules offered are picker candidates
/// in the picker's order, none twice, and a p11-kit aggregate never comes
/// before a concrete token module.
pub proof fn offered_modules_keep_the_picker_order(flags: Seq<bool>)
    requires
        flags.len() == module_picker_candidates().len(),
    ensures
        ({
            let c = module_picker_candidates();
            let r = flagged(c, flags);
            &&& exists|idx: Seq<int>|
                idx.len() == r.len() && (forall|k: int|
                    0 <= k < idx.len() ==> 0 <= #[trigger] idx[k] < c.len() && r[k] == c[idx[k]])
                    && (forall|k: int, l: int| 0 <= k < l < idx.len() ==> idx[k] < idx[l])
            &&& forall|k: int, l: int| 0 <= k < l < r.len() ==> r[k] != r[l]
            &&& forall|k: int, l: int|
                0 <= k < l < r.len() && is_p11_kit_proxy(r[k]) ==> is_p11_kit_proxy(r[l])
        }),
{
    let c = module_picker_candidates();
    let r = flagged(c, flags);
    let idx = crate::paths::flagged_positions(c, flags);
    lemma_candidates_distinct();
    assert forall|k: int, l: int| 0 <= k < l < r.len() implies r[k] != r[l] by {
        assert(idx[k] < idx[l]);
        assert(r[k] == c[idx[k]] && r[l] == c[idx[l]]);
    }
    assert forall|k: int, l: int|
        0 <= k < l < r.len() && is_p11_kit_proxy(r[k]) implies is_p11_kit_proxy(r[l]) by {
        assert(idx[k] < idx[l]);
        assert(r[k] == c[idx[k]] && r[l] == c[idx[l]]);
        assert(idx[k] >= 12);
        assert(idx[l] == 13);
    }
}

fn module_picker_candidates_exec() -> (r: Vec<String>)
    ensures
        str_views(r@) == module_picker_candidates(),
{
    let mut v: Vec<String> = Vec::new();
    v.push("/app/lib/pkcs11/opensc-pkcs11.so".to_owned());
    v.push("/app/lib/opensc-pkcs11.so".to_owned());
    v.push("/usr/lib64/pkcs11/opensc-pkcs11.so".to_owned());
    v.push("/usr/lib/x86_64-linux-gnu/opensc-pkcs11.so".to_owned());
    v.push("/usr/lib/pkcs11/opensc-pkcs11.so".to_owned());
    v.push("/usr/lib64/opensc-pkcs11.so".to_owned());
    v.push("/usr/lib64/pkcs11/libykcs11.so".to_owned());
    v.push("/usr/lib/x86_64-linux-gnu/libykcs11.so.2".to_owned());
    v.push("/usr/lib64/libykcs11.so".to_owned());
    v.push("/usr/lib64/softhsm/libsofthsm2.so".to_owned());
    v.push("/usr/lib/softhsm/libsofthsm2.so".to_owned());
    v.push("/usr/lib/x86_64-linux-gnu/softhsm/libsofthsm2.so".to_owned());
    v.push("/usr/lib64/p11-kit-proxy.so".to_owned());
    v.push("/usr/lib/x86_64-linux-gnu/pkcs11/p11-kit-proxy.so".to_owned());
    assert(str_views(v@) =~= module_picker_candidates());
    v
}

/// The module picker's candidates that exist on this system, in order. For
/// each answer the filesystem gives, exactly the candidates it reported as
/// existing.
pub fn available_modules() -> (r: Vec<String>)
    ensures
        exists|flags: Seq<bool>|
            flags.len() == module_picker_candidates().len() && str_views(r@) == flagged(
                module_picker_candidates(),
                flags,
            ),
{
    let c = module_picker_candidates_exec();
    existing(&c)
}

// ---------------------------------------------------------------------------
// token and certificate details
// ---------------------------------------------------------------------------

/// The subject and expiry date in `openssl x509 -subject -enddate` output:
/// the last `subject=` line's value trimmed, and the first word of the last
/// `notAfter=` line (the date of an ISO 8601 time).
pub open spec fn cert_meta_of(ls: Seq<Seq<char>>) -> (Seq<char>, Seq<char>)
    decreases ls.len(),
{
    if ls.len() == 0 {
        (Seq::empty(), Seq::empty())
    } else {
        let prev = cert_meta_of(ls.drop_last());
        match strip_prefix(ls.last(), "subject="@) {
            Some(v) => (trim(v), prev.1),
            None => match strip_prefix(ls.last(), "notAfter="@) {
                Some(v) => (
                    prev.0,
                    if words(v).len() > 0 {
                        words(v)[0]
                    } else {
                        Seq::empty()
                    },
                ),
                None => prev,
            },
        }
    }
}

/// The subject and expiry of a certificate from openssl's output.
pub fn parse_cert_meta(text: &str) -> (r: (String, String))
    ensures
        (r.0@, r.1@) == cert_meta_of(crate::text::lines(text@)),
{
    let all = chars_of(text);
    let ls = crate::text::lines_vec(&all);
    let ghost lv = views(ls@);
    let mut subject: Vec<char> = Vec::new();
    let mut expiry: Vec<char> = Vec::new();
    let mut i: usize = 0;
    while i < ls.len()
        invariant
            lv == views(ls@),
            lv == crate::text::lines(text@),
            i <= lv.len(),
            (subject@, expiry@) == cert_meta_of(lv.take(i as int)),
        decreases ls.len() - i,
    {
        assert(lv.take(i + 1).drop_last() =~= lv.take(i as int));
        assert(lv.take(i + 1).last() == ls@[i as int]@);
        match strip_prefix_str(&ls[i], "subject=") {
            Some(v) => {
                subject = trim_vec(&v);
            },
            None => match strip_prefix_str(&ls[i], "notAfter=") {
                Some(v) => {
                    let ws = words_vec(&v);
                    if ws.len() > 0 {
                        assert(views(ws@)[0] == ws@[0]@);
                        expiry = slice(&ws[0], 0, ws[0].len());
                        assert(expiry@ =~= ws@[0]@);
                    } else {
                        expiry = Vec::new();
                    }
                },
                None => {},
            },
        }
        i = i + 1;
    }
    assert(lv.take(lv.len() as int) =~= lv);
    (string_of(&subject), string_of(&expiry))
}

/// The token label and device model in `pkcs11-tool -T` output: the last
/// `token label` line's value (colons and spaces before it dropped), and the
/// friendly model of the last `Slot …): <description>` line.
pub open spec fn token_info_of(ls: Seq<Seq<char>>) -> (Seq<char>, Seq<char>)
    decreases ls.len(),
{
    if ls.len() == 0 {
        (Seq::empty(), Seq::empty())
    } else {
        let prev = token_info_of(ls.drop_last());
        let t = trim(ls.last());
        match strip_prefix(t, "token label"@) {
            Some(v) => (trim(strip_label_separators(v)), prev.1),
            None => if starts_with(t, "Slot "@) {
                match find(t, "): "@) {
                    Some(k) => (prev.0, friendly_model_of(t.skip(k + 3))),
                    None => prev,
                }
            } else {
                prev
            },
        }
    }
}

/// `trim_start_matches([' ', ':'])`.
pub open spec fn strip_label_separators(s: Seq<char>) -> Seq<char>
    decreases s.len(),
{
    if s.len() > 0 && (s[0] == ' ' || s[0] == ':') {
        strip_label_separators(s.drop_first())
    } else {
        s
    }
}

fn strip_label_separators_vec(s: &[char]) -> (r: Vec<char>)
    ensures
        r@ == strip_label_separators(s@),
{
    let mut i: usize = 0;
    assert(s@.skip(0) =~= s@);
    while i < s.len() && (s[i] == ' ' || s[i] == ':')
        invariant
            i <= s@.len(),
            strip_label_separators(s@) == strip_label_separators(s@.skip(i as int)),
        decreases s.len() - i,
    {
        assert(s@.skip(i as int).drop_first() =~= s@.skip(i + 1));
        i = i + 1;
    }
    let r = slice(s, i, s.len());
    assert(r@ =~= s@.skip(i as int));
    r
}

/// The token label and device model from `pkcs11-tool -T` output.
pub fn parse_token_info(text: &str) -> (r: (String, String))
    ensures
        (r.0@, r.1@) == token_info_of(crate::text::lines(text@)),
{
    let all = chars_of(text);
    let ls = crate::text::lines_vec(&all);
    let ghost lv = views(ls@);
    let mut label: Vec<char> = Vec::new();
    let mut model: Vec<char> = Vec::new();
    let mut i: usize = 0;
    while i < ls.len()
        invariant
            lv == views(ls@),
            lv == crate::text::lines(text@),
            i <= lv.len(),
            (label@, model@) == token_info_of(lv.take(i as int)),
        decreases ls.len() - i,
    {
        assert(lv.take(i + 1).drop_last() =~= lv.take(i as int));
        assert(lv.take(i + 1).last() == ls@[i as int]@);
        let t = trim_vec(&ls[i]);
        match strip_prefix_str(&t, "token label") {
            Some(v) => {
                label = trim_vec(&strip_label_separators_vec(&v));
            },
            None => {
                if has_prefix_str(&t, "Slot ") {
                    match find_seq(&t, &lit("): ")) {
                        Some(k) => {
                            proof {
                                reveal_strlit("): ");
                                crate::text::lemma_find_from_spec(t@, "): "@, 0);
                            }
                            let n = t.len();
                            assert(k + 3 <= n);
                            let desc = slice(&t, k + 3, n);
                            assert(desc@ =~= t@.skip(k + 3));
                            let m = friendly_model(string_of(&desc).as_str());
                            model = chars_of(m.as_str());
                        },
                        None => {},
                    }
                }
            },
        }
        i = i + 1;
    }
    assert(lv.take(lv.len() as int) =~= lv);
    (string_of(&label), string_of(&model))
}

/// Fill in a listed certificate's token, model and PIV slot, and its subject
/// (when openssl gave a non-empty one) and expiry.
pub fn enrich(c: &mut CertInfo, token: &str, model: &str, meta: Option<(String, String)>)
    ensures
        final(c).manufacturer == old(c).manufacturer,
        final(c).id == old(c).id,
        final(c).label == old(c).label,
        final(c).token@ == token@,
        final(c).model@ == model@,
        final(c).slot@ == piv_slot_of(old(c).id@),
        final(c).subject@ == match meta {
            Some((s, _)) => if s@.len() > 0 {
                s@
            } else {
                old(c).subject@
            },
            None => old(c).subject@,
        },
        final(c).expiry@ == match meta {
            Some((_, e)) => e@,
            None => old(c).expiry@,
        },
{
    c.token = token.to_owned();
    c.model = model.to_owned();
    c.slot = piv_slot(c.id.as_str());
    match meta {
        Some((subject, expiry)) => {
            if subject.unicode_len() > 0 {
                c.subject = subject;
            }
            c.expiry = expiry;
        },
        None => {},
    }
}

} // verus!
