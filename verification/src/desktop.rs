//! Desktop integration: the XDG autostart entry, and the tiling shell's float
//! exception for the GUI's window.

use vstd::prelude::*;
use crate::text::{chars_of, lit, push_str, string_of};

verus! {

/// The GUI's Flatpak application id.
pub const GUI_FLATPAK_ID: &'static str = "io.github.techneut92.gpgui";

/// The installed launcher, preferred so the entry survives rebuilds.
pub const INSTALLED_BIN: &'static str = "/usr/bin/gpgui";

/// The command the autostart entry runs: `flatpak run …` under Flatpak,
/// else the installed binary when present, else the current executable (or
/// `gpgui`), with the renderer workaround; `--hidden` only when starting
/// minimized.
pub open spec fn exec_line_spec(minimized: bool, flatpak: bool, installed: bool, exe: Option<Seq<char>>) -> Seq<char> {
    let hidden = if minimized {
        " --hidden"@
    } else {
        Seq::empty()
    };
    if flatpak {
        "flatpak run "@ + GUI_FLATPAK_ID@ + hidden
    } else {
        let bin = if installed {
            INSTALLED_BIN@
        } else {
            match exe {
                Some(e) => e,
                None => "gpgui"@,
            }
        };
        "env WEBKIT_DISABLE_DMABUF_RENDERER=1 "@ + bin + hidden
    }
}

pub open spec fn opt_str(o: Option<&str>) -> Option<Seq<char>> {
    match o {
        Some(s) => Some(s@),
        None => None,
    }
}

pub fn exec_line(minimized: bool, flatpak: bool, installed: bool, exe: Option<&str>) -> (r: String)
    ensures
        r@ == exec_line_spec(minimized, flatpak, installed, opt_str(exe)),
{
    let mut v = if flatpak {
        let mut v = lit("flatpak run ");
        push_str(&mut v, GUI_FLATPAK_ID);
        v
    } else {
        let mut v = lit("env WEBKIT_DISABLE_DMABUF_RENDERER=1 ");
        if installed {
            push_str(&mut v, INSTALLED_BIN);
        } else {
            match exe {
                Some(e) => push_str(&mut v, e),
                None => push_str(&mut v, "gpgui"),
            }
        }
        v
    };
    if minimized {
        push_str(&mut v, " --hidden");
    }
    proof {
        assert(v@ =~= exec_line_spec(minimized, flatpak, installed, opt_str(exe)));
    }
    string_of(&v)
}

/// The autostart desktop entry running `exec`.
pub open spec fn autostart_entry_spec(exec: Seq<char>) -> Seq<char> {
    "[Desktop Entry]\nType=Application\nName=GP Client\nComment=Connect to GlobalProtect VPN\nExec="@
        + exec
        + "\nIcon=gpgui\nTerminal=false\nCategories=Network;Security;\nX-GNOME-Autostart-enabled=true\n"@
}

pub fn autostart_entry(exec: &str) -> (r: String)
    ensures
        r@ == autostart_entry_spec(exec@),
{
    let mut v = lit(
        "[Desktop Entry]\nType=Application\nName=GP Client\nComment=Connect to GlobalProtect VPN\nExec=",
    );
    push_str(&mut v, exec);
    push_str(
        &mut v,
        "\nIcon=gpgui\nTerminal=false\nCategories=Network;Security;\nX-GNOME-Autostart-enabled=true\n",
    );
    string_of(&v)
}

/// The window class token the tiling shell's float rule matches.
pub const FLOAT_MATCH: &'static str = "gpgui";

/// ASCII lowercase of one character.
pub open spec fn ascii_lower(c: char) -> char {
    if 'A' <= c <= 'Z' {
        ((c as u32) + 32) as char
    } else {
        c
    }
}

/// `str::eq_ignore_ascii_case`.
pub open spec fn eq_ignore_ascii_case(a: Seq<char>, b: Seq<char>) -> bool {
    a.len() == b.len() && forall|i: int| 0 <= i < a.len() ==> ascii_lower(a[i]) == ascii_lower(b[i])
}

fn lower(c: char) -> (r: char)
    ensures
        r == ascii_lower(c),
{
    if 'A' <= c && c <= 'Z' {
        let b: u8 = c as u8;
        assert(b as u32 == c as u32);
        ((b + 32) as char)
    } else {
        c
    }
}

fn eq_ignore_case_exec(a: &str, b: &str) -> (r: bool)
    ensures
        r == eq_ignore_ascii_case(a@, b@),
{
    let av = chars_of(a);
    let bv = chars_of(b);
    if av.len() != bv.len() {
        return false;
    }
    let mut i: usize = 0;
    while i < av.len()
        invariant
            av@ == a@,
            bv@ == b@,
            av@.len() == bv@.len(),
            i <= av@.len(),
            forall|j: int| 0 <= j < i ==> ascii_lower(a@[j]) == ascii_lower(b@[j]),
        decreases av.len() - i,
    {
        if lower(av[i]) != lower(bv[i]) {
            return false;
        }
        i = i + 1;
    }
    true
}

/// A rule whose class is the GUI's token, in any ASCII case.
pub open spec fn is_our_rule(o: Option<String>) -> bool {
    match o {
        Some(c) => eq_ignore_ascii_case(c@, FLOAT_MATCH@),
        None => false,
    }
}

/// Whether the float rules (each rule's `class`, when it has a text one)
/// already hold one for the GUI's window.
pub fn has_float_rule(classes: &Vec<Option<String>>) -> (r: bool)
    ensures
        r == exists|i: int| 0 <= i < classes@.len() && #[trigger] is_our_rule(classes@[i]),
{
    let mut i: usize = 0;
    while i < classes.len()
        invariant
            i <= classes@.len(),
            forall|j: int| 0 <= j < i ==> !#[trigger] is_our_rule(classes@[j]),
        decreases classes.len() - i,
    {
        match &classes[i] {
            Some(c) => {
                if eq_ignore_case_exec(c.as_str(), FLOAT_MATCH) {
                    assert(is_our_rule(classes@[i as int]));
                    return true;
                }
            },
            None => {},
        }
        i = i + 1;
    }
    false
}

} // verus!
