//! System integration: how the app and the OS are installed, the backend's
//! version, and the install and update commands for each package manager.
//! The file reads and commands stay with the caller; this module decides
//! what they mean and what to run.

use vstd::prelude::*;
use crate::paths::path_exists;
use crate::text::{
    chars_of, contains, contains_str, eq, eq_str, has_prefix_str, is_digit, lines, lines_vec, lit,
    push_str, slice, split, split_once, split_once_vec, split_vec, starts_with, string_of,
    strip_prefix, strip_prefix_str, trim, trim_char, trim_char_vec, trim_vec, views, words,
    words_vec,
};

verus! {

/// The repository the releases come from.
pub const REPO: &'static str = "techneut92/GlobalProtect-openconnect-dw";

/// The GUI's Flatpak application id.
pub const FLATPAK_ID: &'static str = "io.github.techneut92.gpgui";

/// How the app or the OS is installed.
#[derive(Debug, Clone, Copy, PartialEq, Eq)]
pub enum InstallKind {
    Flatpak,
    RpmOstree,
    Dnf,
    Apt,
    Pacman,
    Apk,
    Zypper,
    Unknown,
}

pub open spec fn kind_name(k: InstallKind) -> Seq<char> {
    match k {
        InstallKind::Flatpak => "flatpak"@,
        InstallKind::RpmOstree => "rpm-ostree"@,
        InstallKind::Dnf => "dnf"@,
        InstallKind::Apt => "apt"@,
        InstallKind::Pacman => "pacman"@,
        InstallKind::Apk => "apk"@,
        InstallKind::Zypper => "zypper"@,
        InstallKind::Unknown => "unknown"@,
    }
}

impl InstallKind {
    pub fn as_str(self) -> (r: &'static str)
        ensures
            r@ == kind_name(self),
    {
        match self {
            InstallKind::Flatpak => "flatpak",
            InstallKind::RpmOstree => "rpm-ostree",
            InstallKind::Dnf => "dnf",
            InstallKind::Apt => "apt",
            InstallKind::Pacman => "pacman",
            InstallKind::Apk => "apk",
            InstallKind::Zypper => "zypper",
            InstallKind::Unknown => "unknown",
        }
    }
}

/// `InstallKind` as a UI-friendly string.
pub fn install_kind_str(kind: InstallKind) -> (r: &'static str)
    ensures
        r@ == kind_name(kind),
{
    kind.as_str()
}

/// The kind named `s`; anything else is `Unknown`.
pub open spec fn kind_of(s: Seq<char>) -> InstallKind {
    if s == "rpm-ostree"@ {
        InstallKind::RpmOstree
    } else if s == "dnf"@ {
        InstallKind::Dnf
    } else if s == "apt"@ {
        InstallKind::Apt
    } else if s == "pacman"@ {
        InstallKind::Pacman
    } else if s == "apk"@ {
        InstallKind::Apk
    } else if s == "zypper"@ {
        InstallKind::Zypper
    } else if s == "flatpak"@ {
        InstallKind::Flatpak
    } else {
        InstallKind::Unknown
    }
}

pub fn kind_from_str(s: &str) -> (r: InstallKind)
    ensures
        r == kind_of(s@),
{
    let v = chars_of(s);
    if eq_str(&v, "rpm-ostree") {
        InstallKind::RpmOstree
    } else if eq_str(&v, "dnf") {
        InstallKind::Dnf
    } else if eq_str(&v, "apt") {
        InstallKind::Apt
    } else if eq_str(&v, "pacman") {
        InstallKind::Pacman
    } else if eq_str(&v, "apk") {
        InstallKind::Apk
    } else if eq_str(&v, "zypper") {
        InstallKind::Zypper
    } else if eq_str(&v, "flatpak") {
        InstallKind::Flatpak
    } else {
        InstallKind::Unknown
    }
}

/// Naming a kind and reading the name back gives the kind.
pub proof fn kind_name_round_trips(k: InstallKind)
    ensures
        kind_of(kind_name(k)) == k,
{
    reveal_strlit("flatpak");
    reveal_strlit("rpm-ostree");
    reveal_strlit("dnf");
    reveal_strlit("apt");
    reveal_strlit("pacman");
    reveal_strlit("apk");
    reveal_strlit("zypper");
    reveal_strlit("unknown");
    assert("dnf"@[0] != "apt"@[0] && "dnf"@[0] != "apk"@[0] && "apt"@[2] != "apk"@[2]);
    assert("pacman"@[0] != "zypper"@[0]);
    assert("flatpak"@[0] != "unknown"@[0]);
}

pub open spec fn kind_label_spec(k: InstallKind) -> Seq<char> {
    match k {
        InstallKind::RpmOstree => "Atomic / image-based (rpm-ostree)"@,
        InstallKind::Dnf => "Fedora / RHEL (dnf)"@,
        InstallKind::Apt => "Debian / Ubuntu (apt)"@,
        InstallKind::Pacman => "Arch (pacman)"@,
        InstallKind::Apk => "Alpine (apk)"@,
        InstallKind::Zypper => "openSUSE (zypper)"@,
        InstallKind::Flatpak => "Flatpak"@,
        InstallKind::Unknown => "Other"@,
    }
}

pub fn kind_label(kind: InstallKind) -> (r: &'static str)
    ensures
        r@ == kind_label_spec(kind),
{
    match kind {
        InstallKind::RpmOstree => "Atomic / image-based (rpm-ostree)",
        InstallKind::Dnf => "Fedora / RHEL (dnf)",
        InstallKind::Apt => "Debian / Ubuntu (apt)",
        InstallKind::Pacman => "Arch (pacman)",
        InstallKind::Apk => "Alpine (apk)",
        InstallKind::Zypper => "openSUSE (zypper)",
        InstallKind::Flatpak => "Flatpak",
        InstallKind::Unknown => "Other",
    }
}

pub open spec fn install_note_spec(k: InstallKind) -> Seq<char> {
    match k {
        InstallKind::RpmOstree => "Layered packages take effect after the next reboot."@,
        _ => "The helper service is enabled and started automatically once installed."@,
    }
}

pub fn install_note(kind: InstallKind) -> (r: &'static str)
    ensures
        r@ == install_note_spec(kind),
{
    match kind {
        InstallKind::RpmOstree => "Layered packages take effect after the next reboot.",
        _ => "The helper service is enabled and started automatically once installed.",
    }
}

/// Whether this process runs inside a Flatpak sandbox (`/.flatpak-info`
/// exists). Nothing is claimed: it is what the filesystem says.
pub fn is_flatpak() -> bool {
    path_exists("/.flatpak-info")
}

// ---------------------------------------------------------------------------
// os-release
// ---------------------------------------------------------------------------

/// The value of `key` in an os-release text: the last `key=value` line wins;
/// the key and value are trimmed and the value's surrounding quotes removed.
pub open spec fn os_release_value(ls: Seq<Seq<char>>, key: Seq<char>) -> Option<Seq<char>>
    decreases ls.len(),
{
    if ls.len() == 0 {
        None
    } else {
        match split_once(ls.last(), '=') {
            Some((k, v)) => if trim(k) == key {
                Some(trim_char(trim(v), '"'))
            } else {
                os_release_value(ls.drop_last(), key)
            },
            None => os_release_value(ls.drop_last(), key),
        }
    }
}

fn os_release_lookup(text: &str, key: &str) -> (r: Option<Vec<char>>)
    ensures
        match r {
            Some(v) => os_release_value(lines(text@), key@) == Some(v@),
            None => os_release_value(lines(text@), key@) is None,
        },
{
    let all = chars_of(text);
    let ls = lines_vec(&all);
    let ghost lv = views(ls@);
    let mut i: usize = ls.len();
    assert(lv.take(lv.len() as int) =~= lv);
    while i > 0
        invariant
            lv == views(ls@),
            lv == lines(text@),
            i <= lv.len(),
            os_release_value(lv, key@) == os_release_value(lv.take(i as int), key@),
        decreases i,
    {
        let ghost pre = lv.take(i as int);
        assert(pre.last() == ls@[i - 1]@);
        assert(pre.drop_last() =~= lv.take(i - 1));
        match split_once_vec(&ls[i - 1], '=') {
            Some((k, v)) => {
                let kt = trim_vec(&k);
                if crate::text::eq_str(&kt, key) {
                    let vt = trim_vec(&v);
                    return Some(trim_char_vec(&vt, '"'));
                }
            },
            None => {},
        }
        i = i - 1;
    }
    None
}

/// The value of `key` in an os-release text.
pub fn os_release_get(text: &str, key: &str) -> (r: Option<String>)
    ensures
        match r {
            Some(v) => os_release_value(lines(text@), key@) == Some(v@),
            None => os_release_value(lines(text@), key@) is None,
        },
{
    match os_release_lookup(text, key) {
        Some(v) => Some(string_of(&v)),
        None => None,
    }
}

/// The OS's display name from its os-release text (`None` when it could not
/// be read): `PRETTY_NAME`, or `Linux`.
pub fn os_pretty_name(os_release: Option<&str>) -> (r: String)
    ensures
        r@ == match os_release {
            Some(t) => match os_release_value(lines(t@), "PRETTY_NAME"@) {
                Some(v) => v,
                None => "Linux"@,
            },
            None => "Linux"@,
        },
{
    match os_release {
        Some(t) => match os_release_get(t, "PRETTY_NAME") {
            Some(v) => v,
            None => "Linux".to_owned(),
        },
        None => "Linux".to_owned(),
    }
}

/// Which os-release file names the OS: inside Flatpak the host's, when
/// visible, else the sandbox's own.
pub fn os_release_path(flatpak: bool, host_visible: bool) -> (r: &'static str)
    ensures
        r@ == if flatpak && host_visible {
            "/run/host/os-release"@
        } else {
            "/etc/os-release"@
        },
{
    if flatpak && host_visible {
        "/run/host/os-release"
    } else {
        "/etc/os-release"
    }
}

pub open spec fn or_empty(o: Option<Seq<char>>) -> Seq<char> {
    match o {
        Some(s) => s,
        None => Seq::empty(),
    }
}

/// The OS is (or is like) `needle`: its `ID`, or a word of its `ID_LIKE`.
pub open spec fn os_is(id: Seq<char>, like: Seq<char>, needle: Seq<char>) -> bool {
    id == needle || words(like).contains(needle)
}

/// The package manager of an OS with `ID` and `ID_LIKE`.
pub open spec fn kind_for_os(id: Seq<char>, like: Seq<char>) -> InstallKind {
    if os_is(id, like, "fedora"@) || os_is(id, like, "rhel"@) || os_is(id, like, "centos"@) {
        InstallKind::Dnf
    } else if os_is(id, like, "debian"@) || os_is(id, like, "ubuntu"@) {
        InstallKind::Apt
    } else if os_is(id, like, "arch"@) {
        InstallKind::Pacman
    } else if os_is(id, like, "alpine"@) {
        InstallKind::Apk
    } else if os_is(id, like, "suse"@) || os_is(id, like, "opensuse"@) {
        InstallKind::Zypper
    } else {
        InstallKind::Unknown
    }
}

/// An OS without `ID_LIKE` is recognised by its own `ID`: the Fedora and
/// Red Hat family installs with dnf, Debian and Ubuntu with apt, Arch with
/// pacman, Alpine with apk, SUSE with zypper, and any other is unknown.
pub proof fn os_ids_pick_their_package_manager(id: Seq<char>)
    ensures
        kind_for_os("fedora"@, Seq::empty()) == InstallKind::Dnf,
        kind_for_os("rhel"@, Seq::empty()) == InstallKind::Dnf,
        kind_for_os("centos"@, Seq::empty()) == InstallKind::Dnf,
        kind_for_os("debian"@, Seq::empty()) == InstallKind::Apt,
        kind_for_os("ubuntu"@, Seq::empty()) == InstallKind::Apt,
        kind_for_os("arch"@, Seq::empty()) == InstallKind::Pacman,
        kind_for_os("alpine"@, Seq::empty()) == InstallKind::Apk,
        kind_for_os("suse"@, Seq::empty()) == InstallKind::Zypper,
        kind_for_os("opensuse"@, Seq::empty()) == InstallKind::Zypper,
        id != "fedora"@ && id != "rhel"@ && id != "centos"@ && id != "debian"@ && id != "ubuntu"@
            && id != "arch"@ && id != "alpine"@ && id != "suse"@ && id != "opensuse"@
            ==> kind_for_os(id, Seq::empty()) == InstallKind::Unknown,
{
    reveal_strlit("fedora");
    reveal_strlit("rhel");
    reveal_strlit("centos");
    reveal_strlit("debian");
    reveal_strlit("ubuntu");
    reveal_strlit("arch");
    reveal_strlit("alpine");
    reveal_strlit("suse");
    reveal_strlit("opensuse");
    assert(words(Seq::<char>::empty()) =~= Seq::<Seq<char>>::empty());
    assert("fedora"@[0] != "debian"@[0]);
    assert("rhel"@[0] != "arch"@[0] && "rhel"@[0] != "suse"@[0]);
    assert("arch"@[0] != "suse"@[0]);
    assert("debian"@[0] != "ubuntu"@[0] && "debian"@[0] != "fedora"@[0] && "debian"@[0] != "centos"@[0]
        && "debian"@[0] != "alpine"@[0]);
    assert("ubuntu"@[0] != "fedora"@[0] && "ubuntu"@[0] != "centos"@[0] && "ubuntu"@[0] != "alpine"@[0]);
    assert("alpine"@[0] != "fedora"@[0] && "alpine"@[0] != "centos"@[0]);
    assert("opensuse"@[0] != "centos"@[0]);
    assert("alpine"@[1] != "arch"@[1]);
    assert("alpine"@ != "arch"@);
}

fn os_is_exec(id: &[char], like: &Vec<Vec<char>>, needle: &str) -> (r: bool)
    ensures
        r == (id@ == needle@ || views(like@).contains(needle@)),
{
    if eq_str(id, needle) {
        return true;
    }
    let mut i: usize = 0;
    while i < like.len()
        invariant
            i <= like@.len(),
            forall|j: int| 0 <= j < i ==> like@[j]@ != needle@,
        decreases like.len() - i,
    {
        if eq_str(&like[i], needle) {
            assert(views(like@)[i as int] == needle@);
            return true;
        }
        i = i + 1;
    }
    assert(!views(like@).contains(needle@)) by {
        if views(like@).contains(needle@) {
            let k = choose|k: int| 0 <= k < views(like@).len() && views(like@)[k] == needle@;
            assert(like@[k]@ == needle@);
        }
    }
    false
}

/// The packaging environment: Flatpak, then an image-based (ostree) system,
/// then the package manager of the OS in its os-release text.
pub fn detect(flatpak: bool, ostree_booted: bool, os_release: &str) -> (r: InstallKind)
    ensures
        r == if flatpak {
            InstallKind::Flatpak
        } else if ostree_booted {
            InstallKind::RpmOstree
        } else {
            kind_for_os(
                or_empty(os_release_value(lines(os_release@), "ID"@)),
                or_empty(os_release_value(lines(os_release@), "ID_LIKE"@)),
            )
        },
{
    if flatpak {
        return InstallKind::Flatpak;
    }
    if ostree_booted {
        return InstallKind::RpmOstree;
    }
    let id = match os_release_lookup(os_release, "ID") {
        Some(v) => v,
        None => Vec::new(),
    };
    let like_text = match os_release_lookup(os_release, "ID_LIKE") {
        Some(v) => v,
        None => Vec::new(),
    };
    assert(id@ == or_empty(os_release_value(lines(os_release@), "ID"@)));
    let like = words_vec(&like_text);
    if os_is_exec(&id, &like, "fedora") || os_is_exec(&id, &like, "rhel") || os_is_exec(
        &id,
        &like,
        "centos",
    ) {
        InstallKind::Dnf
    } else if os_is_exec(&id, &like, "debian") || os_is_exec(&id, &like, "ubuntu") {
        InstallKind::Apt
    } else if os_is_exec(&id, &like, "arch") {
        InstallKind::Pacman
    } else if os_is_exec(&id, &like, "alpine") {
        InstallKind::Apk
    } else if os_is_exec(&id, &like, "suse") || os_is_exec(&id, &like, "opensuse") {
        InstallKind::Zypper
    } else {
        InstallKind::Unknown
    }
}

/// The package manager owning the backend on the host, from the output of
/// the host probe (`None` when it failed).
pub fn host_install_kind(probe_output: Option<&str>) -> (r: InstallKind)
    ensures
        r == match probe_output {
            Some(o) => kind_of(trim(o@)),
            None => InstallKind::Unknown,
        },
{
    match probe_output {
        Some(o) => {
            let t = string_of(&trim_vec(&chars_of(o)));
            kind_from_str(t.as_str())
        },
        None => InstallKind::Unknown,
    }
}

/// Whether the backend is installed: inside Flatpak its D-Bus service must
/// be available; natively its binary must exist.
pub fn backend_installed(flatpak: bool, dbus_available: bool, binary_exists: bool) -> (r: bool)
    ensures
        r == if flatpak {
            dbus_available
        } else {
            binary_exists
        },
{
    if flatpak {
        dbus_available
    } else {
        binary_exists
    }
}

// ---------------------------------------------------------------------------
// how this binary runs
// ---------------------------------------------------------------------------

/// How this binary is running: the build's own kind when it names one, else
/// Flatpak, else by where the executable sits.
pub open spec fn run_mode_spec(build_kind: Option<Seq<char>>, flatpak: bool, exe: Option<Seq<char>>) -> Seq<char> {
    match build_kind {
        Some(k) if k.len() > 0 => if k == "flatpak"@ {
            "Flatpak"@
        } else if k == "native"@ {
            "Native package"@
        } else if k == "source"@ {
            "Source build"@
        } else {
            k
        },
        _ => if flatpak {
            "Flatpak"@
        } else {
            match exe {
                Some(p) => if contains(p, "/target/debug/"@) || contains(p, "/target/release/"@) {
                    "Source build"@
                } else if starts_with(p, "/usr/"@) {
                    "Native package"@
                } else if starts_with(p, "/app/"@) {
                    "Flatpak"@
                } else {
                    "Unknown"@
                },
                None => "Unknown"@,
            }
        },
    }
}

pub open spec fn opt_str(o: Option<&str>) -> Option<Seq<char>> {
    match o {
        Some(s) => Some(s@),
        None => None,
    }
}

pub fn run_mode(build_kind: Option<&str>, flatpak: bool, exe: Option<&str>) -> (r: String)
    ensures
        r@ == run_mode_spec(opt_str(build_kind), flatpak, opt_str(exe)),
{
    match build_kind {
        Some(k) => {
            if !k.is_empty() {
                let kv = chars_of(k);
                if eq_str(&kv, "flatpak") {
                    return "Flatpak".to_owned();
                } else if eq_str(&kv, "native") {
                    return "Native package".to_owned();
                } else if eq_str(&kv, "source") {
                    return "Source build".to_owned();
                } else {
                    return k.to_owned();
                }
            }
        },
        None => {},
    }
    if flatpak {
        return "Flatpak".to_owned();
    }
    match exe {
        Some(p) => {
            let pv = chars_of(p);
            if contains_str(&pv, "/target/debug/") || contains_str(&pv, "/target/release/") {
                "Source build".to_owned()
            } else if has_prefix_str(&pv, "/usr/") {
                "Native package".to_owned()
            } else if has_prefix_str(&pv, "/app/") {
                "Flatpak".to_owned()
            } else {
                "Unknown".to_owned()
            }
        },
        None => "Unknown".to_owned(),
    }
}

// ---------------------------------------------------------------------------
// versions
// ---------------------------------------------------------------------------

/// A character of a version number: an ASCII digit or a dot.
pub open spec fn version_char(c: char) -> bool {
    is_digit(c) || c == '.'
}

/// Every leading and trailing non-version character removed.
pub open spec fn trim_non_version(s: Seq<char>) -> Seq<char>
    decreases s.len(),
{
    if s.len() > 0 && !version_char(s[0]) {
        trim_non_version(s.drop_first())
    } else if s.len() > 0 && !version_char(s.last()) {
        trim_non_version(s.drop_last())
    } else {
        s
    }
}

/// A token that looks like a version: it starts with a digit and has a dot.
pub open spec fn version_like(t: Seq<char>) -> bool {
    t.len() > 0 && is_digit(t[0]) && t.contains('.')
}

/// The first version-looking token of `--version` output, trimmed to the
/// version's characters.
pub open spec fn parse_version_spec(ts: Seq<Seq<char>>) -> Option<Seq<char>>
    decreases ts.len(),
{
    if ts.len() == 0 {
        None
    } else if version_like(ts[0]) {
        Some(trim_non_version(ts[0]))
    } else {
        parse_version_spec(ts.drop_first())
    }
}

fn trim_non_version_vec(s: &[char]) -> (r: Vec<char>)
    ensures
        r@ == trim_non_version(s@),
{
    let n = s.len();
    let mut i: usize = 0;
    let mut j: usize = n;
    assert(s@.subrange(0, n as int) =~= s@);
    while i < j && !(crate::text::is_ascii_digit(s[i]) || s[i] == '.')
        invariant
            n == s@.len(),
            i <= j <= n,
            j == n,
            trim_non_version(s@) == trim_non_version(s@.subrange(i as int, j as int)),
        decreases j - i,
    {
        assert(s@.subrange(i as int, j as int).drop_first() =~= s@.subrange(i + 1, j as int));
        i = i + 1;
    }
    while i < j && !(crate::text::is_ascii_digit(s[j - 1]) || s[j - 1] == '.')
        invariant
            n == s@.len(),
            i <= j <= n,
            i < j ==> version_char(s@[i as int]),
            trim_non_version(s@) == trim_non_version(s@.subrange(i as int, j as int)),
        decreases j - i,
    {
        assert(s@.subrange(i as int, j as int).drop_last() =~= s@.subrange(i as int, j - 1));
        assert(s@.subrange(i as int, j as int)[0] == s@[i as int]);
        j = j - 1;
    }
    slice(s, i, j)
}

fn has_char_vec(s: &[char], c: char) -> (r: bool)
    ensures
        r == s@.contains(c),
{
    let mut i: usize = 0;
    while i < s.len()
        invariant
            i <= s@.len(),
            forall|j: int| 0 <= j < i ==> s@[j] != c,
        decreases s.len() - i,
    {
        if s[i] == c {
            return true;
        }
        i = i + 1;
    }
    false
}

/// The version in `--version` output: the first token starting with a digit
/// and holding a dot, without leading or trailing non-version characters.
pub fn parse_version(text: &str) -> (r: Option<String>)
    ensures
        opt_string(r) == parse_version_spec(words(text@)),
{
    let all = chars_of(text);
    let ts = words_vec(&all);
    let ghost tv = views(ts@);
    let mut i: usize = 0;
    assert(tv.skip(0) =~= tv);
    while i < ts.len()
        invariant
            tv == views(ts@),
            tv == words(text@),
            i <= tv.len(),
            parse_version_spec(tv) == parse_version_spec(tv.skip(i as int)),
        decreases ts.len() - i,
    {
        let t = &ts[i];
        assert(tv.skip(i as int)[0] == t@);
        assert(tv.skip(i as int).drop_first() =~= tv.skip(i + 1));
        if t.len() > 0 && crate::text::is_ascii_digit(t[0]) && has_char_vec(t, '.') {
            assert(version_like(tv.skip(i as int)[0]));
            let tr = trim_non_version_vec(t);
            assert(parse_version_spec(tv.skip(i as int)) == Some(trim_non_version(t@)));
            return Some(string_of(&tr));
        }
        i = i + 1;
    }
    None
}

pub open spec fn opt_string(o: Option<String>) -> Option<Seq<char>> {
    match o {
        Some(s) => Some(s@),
        None => None,
    }
}

/// A version string safe to put in a URL and a root shell command: 1 to 64
/// characters, each an ASCII letter or digit or one of `.-+~_`.
pub open spec fn safe_version_spec(v: Seq<char>) -> bool {
    &&& 0 < v.len() <= 64
    &&& forall|i: int| 0 <= i < v.len() ==> #[trigger] safe_char(v[i])
}

pub open spec fn safe_char(c: char) -> bool {
    ('a' <= c <= 'z') || ('A' <= c <= 'Z') || ('0' <= c <= '9') || c == '.' || c == '-' || c
        == '+' || c == '~' || c == '_'
}

/// Whether a release tag is safe to use in an install command.
pub fn safe_version(v: &str) -> (r: bool)
    ensures
        r == safe_version_spec(v@),
{
    let cs = chars_of(v);
    if cs.len() == 0 || cs.len() > 64 {
        return false;
    }
    let mut i: usize = 0;
    while i < cs.len()
        invariant
            cs@ == v@,
            i <= cs@.len(),
            forall|j: int| 0 <= j < i ==> #[trigger] safe_char(cs@[j]),
        decreases cs.len() - i,
    {
        let c = cs[i];
        let ok = ('a' <= c && c <= 'z') || ('A' <= c && c <= 'Z') || ('0' <= c && c <= '9') || c
            == '.' || c == '-' || c == '+' || c == '~' || c == '_';
        if !ok {
            assert(!safe_char(v@[i as int]));
            return false;
        }
        i = i + 1;
    }
    true
}

/// A safe version is plain ASCII, so it holds no quote, space, `$` or `;`
/// that could break out of a shell command.
pub proof fn safe_version_has_no_shell_metacharacters(v: Seq<char>, i: int)
    requires
        safe_version_spec(v),
        0 <= i < v.len(),
    ensures
        v[i] != '\'' && v[i] != '"' && v[i] != ' ' && v[i] != '$' && v[i] != ';' && v[i] != '`'
            && v[i] != '&' && v[i] != '|',
{
    assert(safe_char(v[i]));
}

// ---------------------------------------------------------------------------
// release assets and install commands
// ---------------------------------------------------------------------------

pub open spec fn release_base(v: Seq<char>) -> Seq<char> {
    "https://github.com/"@ + REPO@ + "/releases/download/v"@ + v
}

pub open spec fn deb_arch(arch: Seq<char>) -> Seq<char> {
    if arch == "aarch64"@ {
        "arm64"@
    } else {
        "amd64"@
    }
}

pub open spec fn rpm_asset(v: Seq<char>, arch: Seq<char>) -> Seq<char> {
    "globalprotect-openconnect-dw-"@ + v + "-1."@ + arch + ".rpm"@
}

pub open spec fn deb_asset(v: Seq<char>, arch: Seq<char>) -> Seq<char> {
    "globalprotect-openconnect-dw_"@ + v + "-1_"@ + deb_arch(arch) + ".deb"@
}

pub open spec fn pacman_asset(v: Seq<char>, arch: Seq<char>) -> Seq<char> {
    "globalprotect-openconnect-dw-"@ + v + "-1-"@ + arch + ".pkg.tar.zst"@
}

pub open spec fn apk_asset(v: Seq<char>, arch: Seq<char>) -> Seq<char> {
    "globalprotect-openconnect-dw-"@ + v + "-r1-"@ + arch + ".apk"@
}

struct Assets {
    base: Vec<char>,
    rpm: Vec<char>,
    deb: Vec<char>,
    pac: Vec<char>,
    apk: Vec<char>,
}

fn assets(v: &str, arch: &str) -> (r: Assets)
    ensures
        r.base@ == release_base(v@),
        r.rpm@ == rpm_asset(v@, arch@),
        r.deb@ == deb_asset(v@, arch@),
        r.pac@ == pacman_asset(v@, arch@),
        r.apk@ == apk_asset(v@, arch@),
{
    let mut base = lit("https://github.com/");
    push_str(&mut base, REPO);
    push_str(&mut base, "/releases/download/v");
    push_str(&mut base, v);
    let mut rpm = lit("globalprotect-openconnect-dw-");
    push_str(&mut rpm, v);
    push_str(&mut rpm, "-1.");
    push_str(&mut rpm, arch);
    push_str(&mut rpm, ".rpm");
    let av = chars_of(arch);
    let da = if eq_str(&av, "aarch64") {
        "arm64"
    } else {
        "amd64"
    };
    let mut deb = lit("globalprotect-openconnect-dw_");
    push_str(&mut deb, v);
    push_str(&mut deb, "-1_");
    push_str(&mut deb, da);
    push_str(&mut deb, ".deb");
    let mut pac = lit("globalprotect-openconnect-dw-");
    push_str(&mut pac, v);
    push_str(&mut pac, "-1-");
    push_str(&mut pac, arch);
    push_str(&mut pac, ".pkg.tar.zst");
    let mut apk = lit("globalprotect-openconnect-dw-");
    push_str(&mut apk, v);
    push_str(&mut apk, "-r1-");
    push_str(&mut apk, arch);
    push_str(&mut apk, ".apk");
    Assets { base, rpm, deb, pac, apk }
}

/// The download-then-install command for `file`.
pub open spec fn dl_install(base: Seq<char>, file: Seq<char>, install: Seq<char>) -> Seq<char> {
    "cd \"$(mktemp -d)\" && curl -fLO '"@ + base + "/"@ + file + "' && "@ + install + " './"@ + file
        + "'"@
}

/// The root shell script that installs the backend of release `v` on a
/// system of `kind` and architecture `arch`.
pub open spec fn install_script_spec(kind: InstallKind, v: Seq<char>, arch: Seq<char>) -> Option<Seq<char>> {
    let base = release_base(v);
    let rpm = rpm_asset(v, arch);
    match kind {
        InstallKind::RpmOstree => Some(
            "cd \"$(mktemp -d)\" && curl -fLO '"@ + base + "/"@ + rpm
                + "' && (rpm-ostree uninstall -y globalprotect-openconnect-dw >/dev/null 2>&1 || true) && rpm-ostree install -y './"@
                + rpm + "'"@,
        ),
        InstallKind::Apt => Some(dl_install(base, deb_asset(v, arch), "apt-get install -y"@)),
        InstallKind::Apk => Some(dl_install(base, apk_asset(v, arch), "apk add --allow-untrusted"@)),
        InstallKind::Dnf => Some("dnf install -y '"@ + base + "/"@ + rpm + "'"@),
        InstallKind::Pacman => Some(
            "pacman -U --noconfirm '"@ + base + "/"@ + pacman_asset(v, arch) + "'"@,
        ),
        InstallKind::Zypper => Some("zypper install -y '"@ + base + "/"@ + rpm + "'"@),
        _ => None,
    }
}

proof fn lemma_contains_middle(a: Seq<char>, b: Seq<char>, c: Seq<char>)
    ensures
        contains(a + b + c, b),
{
    assert((a + b + c).subrange(a.len() as int, (a.len() + b.len()) as int) =~= b);
    assert(crate::text::occurs_at(a + b + c, b, a.len() as int));
}

proof fn lemma_not_sudo(s: Seq<char>, first: char)
    requires
        s.len() > 0,
        s[0] == first,
        first != 's',
    ensures
        !starts_with(s, "sudo"@),
{
    reveal_strlit("sudo");
    if starts_with(s, "sudo"@) {
        assert(s.take(4)[0] == s[0]);
    }
}

/// The install script exists for every packaged system, not for Flatpak or
/// an unknown one; it downloads from the release of the version it is given
/// (not the running build's), and runs as root without going through sudo.
pub proof fn install_script_fetches_the_given_release(kind: InstallKind, v: Seq<char>, arch: Seq<char>)
    ensures
        (install_script_spec(kind, v, arch) is None) <==> (kind == InstallKind::Flatpak || kind
            == InstallKind::Unknown),
        install_script_spec(kind, v, arch) matches Some(s) ==> contains(s, release_base(v))
            && !starts_with(s, "sudo"@),
{
    let base = release_base(v);
    let rpm = rpm_asset(v, arch);
    let cd = "cd \"$(mktemp -d)\" && curl -fLO '"@;
    reveal_strlit("cd \"$(mktemp -d)\" && curl -fLO '");
    reveal_strlit("dnf install -y '");
    reveal_strlit("pacman -U --noconfirm '");
    reveal_strlit("zypper install -y '");
    match kind {
        InstallKind::RpmOstree => {
            let t = install_script_spec(kind, v, arch)->0;
            let rest = t.skip((cd.len() + base.len()) as int);
            assert(t =~= cd + base + rest);
            lemma_contains_middle(cd, base, rest);
            lemma_not_sudo(t, 'c');
        },
        InstallKind::Apt | InstallKind::Apk => {
            let t = install_script_spec(kind, v, arch)->0;
            let rest = t.skip((cd.len() + base.len()) as int);
            assert(t =~= cd + base + rest);
            lemma_contains_middle(cd, base, rest);
            lemma_not_sudo(t, 'c');
        },
        InstallKind::Dnf => {
            let a = "dnf install -y '"@;
            let t = install_script_spec(kind, v, arch)->0;
            let rest = t.skip((a.len() + base.len()) as int);
            assert(t =~= a + base + rest);
            lemma_contains_middle(a, base, rest);
            lemma_not_sudo(t, 'd');
        },
        InstallKind::Pacman => {
            let a = "pacman -U --noconfirm '"@;
            let t = install_script_spec(kind, v, arch)->0;
            let rest = t.skip((a.len() + base.len()) as int);
            assert(t =~= a + base + rest);
            lemma_contains_middle(a, base, rest);
            lemma_not_sudo(t, 'p');
        },
        InstallKind::Zypper => {
            let a = "zypper install -y '"@;
            let t = install_script_spec(kind, v, arch)->0;
            let rest = t.skip((a.len() + base.len()) as int);
            assert(t =~= a + base + rest);
            lemma_contains_middle(a, base, rest);
            lemma_not_sudo(t, 'z');
        },
        _ => {},
    }
}

/// Each install script downloads, from the release of the version it is
/// given, the package built for the machine: the `.deb` for `arm64` on
/// `aarch64` and for `amd64` on anything else, the `.rpm`, pacman and Alpine
/// packages named by the machine's architecture; and installs that same file.
/// The manual steps name the same package at the same address.
pub proof fn install_script_installs_the_machines_package(v: Seq<char>, arch: Seq<char>)
    ensures
        ({
            let url = "https://github.com/"@ + REPO@ + "/releases/download/v"@ + v + "/"@;
            let cd = "cd \"$(mktemp -d)\" && curl -fLO '"@;
            let deb = "globalprotect-openconnect-dw_"@ + v + "-1_"@ + (if arch == "aarch64"@ {
                "arm64"@
            } else {
                "amd64"@
            }) + ".deb"@;
            let rpm = "globalprotect-openconnect-dw-"@ + v + "-1."@ + arch + ".rpm"@;
            let pac = "globalprotect-openconnect-dw-"@ + v + "-1-"@ + arch + ".pkg.tar.zst"@;
            let apk = "globalprotect-openconnect-dw-"@ + v + "-r1-"@ + arch + ".apk"@;
            &&& install_script_spec(InstallKind::Apt, v, arch) == Some(
                cd + url + deb + "' && "@ + "apt-get install -y"@ + " './"@ + deb + "'"@,
            )
            &&& install_script_spec(InstallKind::Apk, v, arch) == Some(
                cd + url + apk + "' && "@ + "apk add --allow-untrusted"@ + " './"@ + apk + "'"@,
            )
            &&& install_script_spec(InstallKind::Dnf, v, arch) == Some(
                "dnf install -y '"@ + url + rpm + "'"@,
            )
            &&& install_script_spec(InstallKind::Zypper, v, arch) == Some(
                "zypper install -y '"@ + url + rpm + "'"@,
            )
            &&& install_script_spec(InstallKind::Pacman, v, arch) == Some(
                "pacman -U --noconfirm '"@ + url + pac + "'"@,
            )
            &&& install_script_spec(InstallKind::RpmOstree, v, arch) == Some(
                cd + url + rpm
                    + "' && (rpm-ostree uninstall -y globalprotect-openconnect-dw >/dev/null 2>&1 || true) && rpm-ostree install -y './"@
                    + rpm + "'"@,
            )
            &&& steps_spec(InstallKind::Apt, v, arch)[0].1 == "curl -LO "@ + url + deb
            &&& steps_spec(InstallKind::Apk, v, arch)[0].1 == "curl -LO "@ + url + apk
            &&& steps_spec(InstallKind::Dnf, v, arch)[0].1 == "sudo dnf install "@ + url + rpm
            &&& steps_spec(InstallKind::Zypper, v, arch)[0].1 == "sudo zypper install "@ + url + rpm
            &&& steps_spec(InstallKind::Pacman, v, arch)[0].1 == "sudo pacman -U "@ + url + pac
            &&& steps_spec(InstallKind::RpmOstree, v, arch)[0].1 == "curl -LO "@ + url + rpm
        }),
{
    let url = "https://github.com/"@ + REPO@ + "/releases/download/v"@ + v + "/"@;
    let base = release_base(v);
    assert(base + "/"@ =~= url);
    let cd = "cd \"$(mktemp -d)\" && curl -fLO '"@;
    let deb = deb_asset(v, arch);
    let rpm = rpm_asset(v, arch);
    let pac = pacman_asset(v, arch);
    let apk = apk_asset(v, arch);
    assert(dl_install(base, deb, "apt-get install -y"@) =~= cd + url + deb + "' && "@
        + "apt-get install -y"@ + " './"@ + deb + "'"@);
    assert(dl_install(base, apk, "apk add --allow-untrusted"@) =~= cd + url + apk + "' && "@
        + "apk add --allow-untrusted"@ + " './"@ + apk + "'"@);
    assert("dnf install -y '"@ + base + "/"@ + rpm + "'"@ =~= "dnf install -y '"@ + url + rpm + "'"@);
    assert("zypper install -y '"@ + base + "/"@ + rpm + "'"@ =~= "zypper install -y '"@ + url + rpm
        + "'"@);
    assert("pacman -U --noconfirm '"@ + base + "/"@ + pac + "'"@ =~= "pacman -U --noconfirm '"@
        + url + pac + "'"@);
    assert(install_script_spec(InstallKind::RpmOstree, v, arch)->0 =~= cd + url + rpm
        + "' && (rpm-ostree uninstall -y globalprotect-openconnect-dw >/dev/null 2>&1 || true) && rpm-ostree install -y './"@
        + rpm + "'"@);
    assert("curl -LO "@ + base + "/"@ + deb =~= "curl -LO "@ + url + deb);
    assert("curl -LO "@ + base + "/"@ + apk =~= "curl -LO "@ + url + apk);
    assert("curl -LO "@ + base + "/"@ + rpm =~= "curl -LO "@ + url + rpm);
    assert("sudo dnf install "@ + base + "/"@ + rpm =~= "sudo dnf install "@ + url + rpm);
    assert("sudo zypper install "@ + base + "/"@ + rpm =~= "sudo zypper install "@ + url + rpm);
    assert("sudo pacman -U "@ + base + "/"@ + pac =~= "sudo pacman -U "@ + url + pac);
}

fn dl_install_exec(base: &[char], file: &[char], install: &str) -> (r: Vec<char>)
    ensures
        r@ == dl_install(base@, file@, install@),
{
    let mut s = lit("cd \"$(mktemp -d)\" && curl -fLO '");
    crate::text::extend(&mut s, base);
    push_str(&mut s, "/");
    crate::text::extend(&mut s, file);
    push_str(&mut s, "' && ");
    push_str(&mut s, install);
    push_str(&mut s, " './");
    crate::text::extend(&mut s, file);
    push_str(&mut s, "'");
    s
}

/// The root shell script for the one-click backend install of release
/// `version`: `None` for an unsafe version string, and for Flatpak and
/// unknown systems.
pub fn backend_install_script(kind: InstallKind, version: &str, arch: &str) -> (r: Option<String>)
    ensures
        opt_string(r) == if safe_version_spec(version@) {
            install_script_spec(kind, version@, arch@)
        } else {
            None
        },
{
    if !safe_version(version) {
        return None;
    }
    let a = assets(version, arch);
    let s: Vec<char> = match kind {
        InstallKind::RpmOstree => {
            let mut s = lit("cd \"$(mktemp -d)\" && curl -fLO '");
            crate::text::extend(&mut s, &a.base);
            push_str(&mut s, "/");
            crate::text::extend(&mut s, &a.rpm);
            push_str(
                &mut s,
                "' && (rpm-ostree uninstall -y globalprotect-openconnect-dw >/dev/null 2>&1 || true) && rpm-ostree install -y './",
            );
            crate::text::extend(&mut s, &a.rpm);
            push_str(&mut s, "'");
            s
        },
        InstallKind::Apt => dl_install_exec(&a.base, &a.deb, "apt-get install -y"),
        InstallKind::Apk => dl_install_exec(&a.base, &a.apk, "apk add --allow-untrusted"),
        InstallKind::Dnf => {
            let mut s = lit("dnf install -y '");
            crate::text::extend(&mut s, &a.base);
            push_str(&mut s, "/");
            crate::text::extend(&mut s, &a.rpm);
            push_str(&mut s, "'");
            s
        },
        InstallKind::Pacman => {
            let mut s = lit("pacman -U --noconfirm '");
            crate::text::extend(&mut s, &a.base);
            push_str(&mut s, "/");
            crate::text::extend(&mut s, &a.pac);
            push_str(&mut s, "'");
            s
        },
        InstallKind::Zypper => {
            let mut s = lit("zypper install -y '");
            crate::text::extend(&mut s, &a.base);
            push_str(&mut s, "/");
            crate::text::extend(&mut s, &a.rpm);
            push_str(&mut s, "'");
            s
        },
        _ => {
            return None;
        },
    };
    Some(string_of(&s))
}

/// One step of a manual install: what it does and the command.
#[derive(Debug)]
pub struct Step {
    pub label: String,
    pub cmd: String,
}

/// The manual install steps for one package manager.
#[derive(Debug)]
pub struct InstallOption {
    pub kind: String,
    pub label: String,
    pub note: String,
    pub steps: Vec<Step>,
}

pub open spec fn step_view(s: Step) -> (Seq<char>, Seq<char>) {
    (s.label@, s.cmd@)
}

/// The manual steps for `kind` with release `v` on `arch`.
pub open spec fn steps_spec(kind: InstallKind, v: Seq<char>, arch: Seq<char>) -> Seq<(Seq<char>, Seq<char>)> {
    let base = release_base(v);
    let rpm = rpm_asset(v, arch);
    let deb = deb_asset(v, arch);
    let apk = apk_asset(v, arch);
    match kind {
        InstallKind::RpmOstree => seq![
            ("Download the package"@, "curl -LO "@ + base + "/"@ + rpm),
            ("Layer it onto the system"@, "sudo rpm-ostree install ./"@ + rpm),
            ("Reboot to finish"@, "systemctl reboot"@),
        ],
        InstallKind::Dnf => seq![("Install from the release"@, "sudo dnf install "@ + base + "/"@ + rpm)],
        InstallKind::Apt => seq![
            ("Download the package"@, "curl -LO "@ + base + "/"@ + deb),
            ("Install it"@, "sudo apt install ./"@ + deb),
        ],
        InstallKind::Pacman => seq![
            ("Install the package"@, "sudo pacman -U "@ + base + "/"@ + pacman_asset(v, arch)),
        ],
        InstallKind::Zypper => seq![
            ("Install from the release"@, "sudo zypper install "@ + base + "/"@ + rpm),
        ],
        InstallKind::Apk => seq![
            ("Download the package"@, "curl -LO "@ + base + "/"@ + apk),
            ("Install it"@, "sudo apk add --allow-untrusted ./"@ + apk),
        ],
        _ => Seq::empty(),
    }
}

/// The install option for `kind` matches its name, label, note and steps.
pub open spec fn option_matches(o: InstallOption, kind: InstallKind, v: Seq<char>, arch: Seq<char>) -> bool {
    &&& o.kind@ == kind_name(kind)
    &&& o.label@ == kind_label_spec(kind)
    &&& o.note@ == install_note_spec(kind)
    &&& o.steps@.map_values(|s: Step| step_view(s)) == steps_spec(kind, v, arch)
}

/// The package managers offered, in order (Flatpak is excluded: the backend
/// is always a host package).
pub open spec fn offered_kinds() -> Seq<InstallKind> {
    seq![
        InstallKind::RpmOstree,
        InstallKind::Dnf,
        InstallKind::Apt,
        InstallKind::Pacman,
        InstallKind::Zypper,
        InstallKind::Apk,
    ]
}

fn step(label: &str, cmd: Vec<char>) -> (r: Step)
    ensures
        r.label@ == label@,
        r.cmd@ == cmd@,
{
    Step { label: label.to_owned(), cmd: string_of(&cmd) }
}

fn joined(a: &str, base: &[char], file: &[char]) -> (r: Vec<char>)
    ensures
        r@ == a@ + base@ + "/"@ + file@,
{
    let mut s = lit(a);
    crate::text::extend(&mut s, base);
    push_str(&mut s, "/");
    crate::text::extend(&mut s, file);
    s
}

fn prefixed(a: &str, file: &[char]) -> (r: Vec<char>)
    ensures
        r@ == a@ + file@,
{
    let mut s = lit(a);
    crate::text::extend(&mut s, file);
    s
}

fn option(kind: InstallKind, steps: Vec<Step>) -> (r: InstallOption)
    ensures
        r.kind@ == kind_name(kind),
        r.label@ == kind_label_spec(kind),
        r.note@ == install_note_spec(kind),
        r.steps == steps,
{
    InstallOption {
        kind: kind.as_str().to_owned(),
        label: kind_label(kind).to_owned(),
        note: install_note(kind).to_owned(),
        steps,
    }
}

/// Concrete, copyable install steps per package manager for release
/// `version` on `arch`.
pub fn install_options(version: &str, arch: &str) -> (r: Vec<InstallOption>)
    ensures
        r@.len() == offered_kinds().len(),
        forall|i: int|
            0 <= i < r@.len() ==> option_matches(#[trigger] r@[i], offered_kinds()[i], version@, arch@),
{
    let a = assets(version, arch);
    let mut out: Vec<InstallOption> = Vec::new();

    let mut s: Vec<Step> = Vec::new();
    s.push(step("Download the package", joined("curl -LO ", &a.base, &a.rpm)));
    s.push(step("Layer it onto the system", prefixed("sudo rpm-ostree install ./", &a.rpm)));
    s.push(step("Reboot to finish", lit("systemctl reboot")));
    assert(s@.map_values(|x: Step| step_view(x)) =~= steps_spec(InstallKind::RpmOstree, version@, arch@));
    out.push(option(InstallKind::RpmOstree, s));

    let mut s: Vec<Step> = Vec::new();
    s.push(step("Install from the release", joined("sudo dnf install ", &a.base, &a.rpm)));
    assert(s@.map_values(|x: Step| step_view(x)) =~= steps_spec(InstallKind::Dnf, version@, arch@));
    out.push(option(InstallKind::Dnf, s));

    let mut s: Vec<Step> = Vec::new();
    s.push(step("Download the package", joined("curl -LO ", &a.base, &a.deb)));
    s.push(step("Install it", prefixed("sudo apt install ./", &a.deb)));
    assert(s@.map_values(|x: Step| step_view(x)) =~= steps_spec(InstallKind::Apt, version@, arch@));
    out.push(option(InstallKind::Apt, s));

    let mut s: Vec<Step> = Vec::new();
    s.push(step("Install the package", joined("sudo pacman -U ", &a.base, &a.pac)));
    assert(s@.map_values(|x: Step| step_view(x)) =~= steps_spec(InstallKind::Pacman, version@, arch@));
    out.push(option(InstallKind::Pacman, s));

    let mut s: Vec<Step> = Vec::new();
    s.push(step("Install from the release", joined("sudo zypper install ", &a.base, &a.rpm)));
    assert(s@.map_values(|x: Step| step_view(x)) =~= steps_spec(InstallKind::Zypper, version@, arch@));
    out.push(option(InstallKind::Zypper, s));

    let mut s: Vec<Step> = Vec::new();
    s.push(step("Download the package", joined("curl -LO ", &a.base, &a.apk)));
    s.push(step("Install it", prefixed("sudo apk add --allow-untrusted ./", &a.apk)));
    assert(s@.map_values(|x: Step| step_view(x)) =~= steps_spec(InstallKind::Apk, version@, arch@));
    out.push(option(InstallKind::Apk, s));
    out
}

// ---------------------------------------------------------------------------
// updates
// ---------------------------------------------------------------------------

/// A published release.
#[derive(Debug, Clone)]
pub struct Release {
    pub version: String,
    pub url: String,
    pub notes: String,
}

/// The release described by the releases API's `tag_name`, `html_url` and
/// `body` (each empty when missing): the tag without its leading `v`s.
pub fn release_from(tag: Option<&str>, url: Option<&str>, body: Option<&str>) -> (r: Release)
    ensures
        r.version@ == crate::text::strip_all_prefix(or_empty(opt_str(tag)), seq!['v']),
        r.url@ == or_empty(opt_str(url)),
        r.notes@ == or_empty(opt_str(body)),
{
    let t = match tag {
        Some(t) => chars_of(t),
        None => Vec::new(),
    };
    let mut vee: Vec<char> = Vec::new();
    vee.push('v');
    assert(vee@ =~= seq!['v']);
    let version = string_of(&crate::text::strip_all_prefix_vec(&t, &vee));
    Release {
        version,
        url: match url {
            Some(u) => u.to_owned(),
            None => String::new(),
        },
        notes: match body {
            Some(b) => b.to_owned(),
            None => String::new(),
        },
    }
}

/// The script that downloads the GUI's `.flatpak` of release `version` and
/// reinstalls it for the user.
pub open spec fn self_update_script_spec(v: Seq<char>) -> Seq<char> {
    "f=$(mktemp --suffix=.flatpak) && curl -fL -o \"$f\" '"@ + release_base(v) + "/"@ + FLATPAK_ID@
        + ".flatpak"@
        + "' && flatpak install --user --reinstall --assumeyes \"$f\"; r=$?; rm -f \"$f\"; exit $r"@
}

/// The Flatpak self-update script for `version`, refused for an unsafe
/// version string.
pub fn self_update_script(version: &str) -> (r: Option<String>)
    ensures
        opt_string(r) == if safe_version_spec(version@) {
            Some(self_update_script_spec(version@))
        } else {
            None
        },
{
    if !safe_version(version) {
        return None;
    }
    let a = assets(version, "");
    let mut s = lit("f=$(mktemp --suffix=.flatpak) && curl -fL -o \"$f\" '");
    crate::text::extend(&mut s, &a.base);
    push_str(&mut s, "/");
    push_str(&mut s, FLATPAK_ID);
    push_str(&mut s, ".flatpak");
    push_str(
        &mut s,
        "' && flatpak install --user --reinstall --assumeyes \"$f\"; r=$?; rm -f \"$f\"; exit $r",
    );
    Some(string_of(&s))
}

/// The last non-blank line of an installer's error output, trimmed, at most
/// 160 characters; `default` when there is none.
pub open spec fn failure_reason_spec(stderr: Seq<char>, default: Seq<char>) -> Seq<char> {
    let ls = lines(stderr);
    let line = last_nonblank(ls);
    let t = trim(
        match line {
            Some(l) => l,
            None => default,
        },
    );
    if t.len() <= 160 {
        t
    } else {
        t.take(160)
    }
}

pub open spec fn last_nonblank(ls: Seq<Seq<char>>) -> Option<Seq<char>>
    decreases ls.len(),
{
    if ls.len() == 0 {
        None
    } else if trim(ls.last()).len() > 0 {
        Some(ls.last())
    } else {
        last_nonblank(ls.drop_last())
    }
}

/// Why an installer failed, from its error output.
pub fn failure_reason(stderr: &str, default: &str) -> (r: String)
    ensures
        r@ == failure_reason_spec(stderr@, default@),
{
    let all = chars_of(stderr);
    let ls = lines_vec(&all);
    let ghost lv = views(ls@);
    let mut i: usize = ls.len();
    let mut found: Option<usize> = None;
    assert(lv.take(lv.len() as int) =~= lv);
    while i > 0
        invariant
            lv == views(ls@),
            lv == lines(stderr@),
            i <= lv.len(),
            found is None,
            last_nonblank(lv) == last_nonblank(lv.take(i as int)),
        decreases i,
    {
        let ghost pre = lv.take(i as int);
        assert(pre.last() == ls@[i - 1]@);
        assert(pre.drop_last() =~= lv.take(i - 1));
        let t = trim_vec(&ls[i - 1]);
        if t.len() > 0 {
            let r = if t.len() <= 160 {
                t
            } else {
                slice(&t, 0, 160)
            };
            assert(r@ =~= failure_reason_spec(stderr@, default@));
            return string_of(&r);
        }
        i = i - 1;
    }
    assert(lv.take(0) =~= Seq::<Seq<char>>::empty());
    let t = trim_vec(&chars_of(default));
    let r = if t.len() <= 160 {
        t
    } else {
        slice(&t, 0, 160)
    };
    assert(r@ =~= failure_reason_spec(stderr@, default@));
    string_of(&r)
}

/// What the one-click install reports for a failed run: pkexec's exit codes
/// 126 (dismissed) and 127 (authentication failed) mean the authentication
/// was cancelled; otherwise the installer's last error line.
pub fn install_failure(code: Option<i32>, stderr: &str) -> (r: String)
    ensures
        r@ == if code == Some(126i32) || code == Some(127i32) {
            "Authentication was cancelled."@
        } else {
            failure_reason_spec(stderr@, "Install failed."@)
        },
{
    match code {
        Some(c) => {
            if c == 126 || c == 127 {
                return "Authentication was cancelled.".to_owned();
            }
        },
        None => {},
    }
    failure_reason(stderr, "Install failed.")
}

/// Whether a newer release is available: its version orders after the
/// current one.
pub fn update_available(latest: &str, current: &str) -> (r: bool)
    ensures
        r == (crate::version::version_order(latest@, current@) > 0),
{
    crate::version::version_newer(latest, current)
}

/// Whether the backend fits the GUI: an absent backend is reported
/// separately, a present one must have the same version.
pub fn backend_compatible(backend_version: Option<&str>, gui_version: &str) -> (r: bool)
    ensures
        r == match backend_version {
            Some(v) => crate::version::version_order(v@, gui_version@) == 0,
            None => true,
        },
{
    match backend_version {
        Some(v) => crate::version::version_equal(v, gui_version),
        None => true,
    }
}

/// The release page to open: the release's own, else the repository's
/// releases.
pub fn release_url(url: &str) -> (r: String)
    ensures
        r@ == if url@.len() == 0 {
            "https://github.com/techneut92/GlobalProtect-openconnect-dw/releases"@
        } else {
            url@
        },
{
    if url.is_empty() {
        "https://github.com/techneut92/GlobalProtect-openconnect-dw/releases".to_owned()
    } else {
        url.to_owned()
    }
}

/// Only http(s) URLs are opened in the browser.
pub fn openable_url(url: &str) -> (r: bool)
    ensures
        r == (starts_with(url@, "https://"@) || starts_with(url@, "http://"@)),
{
    let v = chars_of(url);
    has_prefix_str(&v, "https://") || has_prefix_str(&v, "http://")
}

// ---------------------------------------------------------------------------
// the Flatpak runtime
// ---------------------------------------------------------------------------

/// The display name of a Flatpak runtime id.
pub open spec fn runtime_name(id: Seq<char>) -> Seq<char> {
    if id == "org.gnome.Platform"@ {
        "GNOME Platform"@
    } else if id == "org.kde.Platform"@ {
        "KDE Platform"@
    } else if id == "org.freedesktop.Platform"@ {
        "Freedesktop"@
    } else {
        id
    }
}

/// The first `runtime=` value among the trimmed lines of `/.flatpak-info`.
pub open spec fn runtime_value(ls: Seq<Seq<char>>) -> Option<Seq<char>>
    decreases ls.len(),
{
    if ls.len() == 0 {
        None
    } else {
        match strip_prefix(trim(ls[0]), "runtime="@) {
            Some(v) => Some(v),
            None => runtime_value(ls.drop_first()),
        }
    }
}

/// The runtime (id and version) named in `/.flatpak-info`, e.g. `GNOME
/// Platform 50`: the ref's optional `runtime/` prefix dropped, then its
/// id, architecture and branch.
pub open spec fn flatpak_runtime_spec(info: Seq<char>) -> Option<Seq<char>> {
    match runtime_value(lines(info)) {
        Some(v) => {
            let r = match strip_prefix(v, "runtime/"@) {
                Some(x) => x,
                None => v,
            };
            let parts = split(r, '/');
            let name = runtime_name(parts[0]);
            let ver = if parts.len() > 2 {
                parts[2]
            } else {
                Seq::empty()
            };
            Some(
                if ver.len() == 0 {
                    name
                } else {
                    name + seq![' '] + ver
                },
            )
        },
        None => None,
    }
}

fn runtime_value_exec(info: &str) -> (r: Option<Vec<char>>)
    ensures
        match r {
            Some(v) => runtime_value(lines(info@)) == Some(v@),
            None => runtime_value(lines(info@)) is None,
        },
{
    let all = chars_of(info);
    let ls = lines_vec(&all);
    let ghost lv = views(ls@);
    let mut i: usize = 0;
    assert(lv.skip(0) =~= lv);
    while i < ls.len()
        invariant
            lv == views(ls@),
            lv == lines(info@),
            i <= lv.len(),
            runtime_value(lv) == runtime_value(lv.skip(i as int)),
        decreases ls.len() - i,
    {
        assert(lv.skip(i as int)[0] == ls@[i as int]@);
        assert(lv.skip(i as int).drop_first() =~= lv.skip(i + 1));
        let t = trim_vec(&ls[i]);
        match strip_prefix_str(&t, "runtime=") {
            Some(v) => {
                return Some(v);
            },
            None => {},
        }
        i = i + 1;
    }
    None
}

/// The Flatpak runtime from the text of `/.flatpak-info`.
pub fn flatpak_runtime(info: &str) -> (r: Option<String>)
    ensures
        opt_string(r) == flatpak_runtime_spec(info@),
{
    let v = match runtime_value_exec(info) {
        Some(v) => v,
        None => {
            return None;
        },
    };
    let r = match strip_prefix_str(&v, "runtime/") {
        Some(x) => x,
        None => v,
    };
    let parts = split_vec(&r, '/');
    proof {
        crate::text::lemma_split_nonempty(r@, '/');
    }
    assert(views(parts@)[0] == parts@[0]@);
    let id = &parts[0];
    let name: Vec<char> = if eq_str(id, "org.gnome.Platform") {
        lit("GNOME Platform")
    } else if eq_str(id, "org.kde.Platform") {
        lit("KDE Platform")
    } else if eq_str(id, "org.freedesktop.Platform") {
        lit("Freedesktop")
    } else {
        slice(id, 0, id.len())
    };
    assert(name@ =~= runtime_name(id@));
    let has_ver = parts.len() > 2 && parts[2].len() > 0;
    let out = if has_ver {
        assert(views(parts@)[2] == parts@[2]@);
        let mut o = name;
        o.push(' ');
        crate::text::extend(&mut o, &parts[2]);
        o
    } else {
        name
    };
    Some(string_of(&out))
}

} // verus!
