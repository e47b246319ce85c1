//! The tray icon and the window's state payload: which icon concept and
//! frame show the connection status, how an RGBA8 PNG becomes the ARGB32
//! pixmap a StatusNotifierItem host draws, and what the menu and the webview
//! are told.

use vstd::prelude::*;
use crate::state::{status_active, status_label, Shared, Status};
use crate::text::{chars_of, eq_str, extend, lit, string_of};

verus! {

/// The two tray icon designs.
#[derive(Debug, Clone, Copy, PartialEq, Eq)]
pub enum TrayConcept {
    Shield,
    Ring,
}

/// The concept named in the settings: `ring`, else the shield.
pub fn concept_for(name: &str) -> (r: TrayConcept)
    ensures
        r == if name@ == "ring"@ {
            TrayConcept::Ring
        } else {
            TrayConcept::Shield
        },
{
    let v = chars_of(name);
    if eq_str(&v, "ring") {
        TrayConcept::Ring
    } else {
        TrayConcept::Shield
    }
}

/// Which artwork shows a status.
#[derive(Debug, Clone, Copy, PartialEq, Eq)]
pub enum IconArt {
    Connected,
    /// Also shown for an error (there is no separate error art).
    Disconnected,
    /// Frame `i` of the connecting animation.
    ConnectingFrame(usize),
}

/// The artwork for `status`: while connecting or disconnecting, the current
/// animation frame (the first one when not animating, e.g. in the tooltip).
pub fn icon_art(status: &Status, animate: bool, frame: usize, frames: usize) -> (r: IconArt)
    requires
        frames > 0,
    ensures
        r == match *status {
            Status::Connected => IconArt::Connected,
            Status::Disconnected | Status::Error(_) => IconArt::Disconnected,
            _ => IconArt::ConnectingFrame(
                if animate {
                    (frame % frames) as usize
                } else {
                    0
                },
            ),
        },
{
    match status {
        Status::Connected => IconArt::Connected,
        Status::Disconnected | Status::Error(_) => IconArt::Disconnected,
        _ => {
            if animate {
                IconArt::ConnectingFrame(frame % frames)
            } else {
                IconArt::ConnectingFrame(0)
            }
        },
    }
}

/// The pixels of an RGBA8 image as ARGB32 in network byte order: each
/// complete 4-byte pixel `[R, G, B, A]` becomes `[A, R, G, B]`; a trailing
/// partial pixel is dropped.
pub open spec fn argb_of(rgba: Seq<u8>) -> Seq<u8> {
    Seq::new(
        (rgba.len() / 4 * 4) as nat,
        |i: int|
            {
                let p = i / 4 * 4;
                let k = i % 4;
                if k == 0 {
                    rgba[p + 3]
                } else {
                    rgba[p + k - 1]
                }
            },
    )
}

pub fn rgba_to_argb(rgba: &[u8]) -> (r: Vec<u8>)
    ensures
        r@ == argb_of(rgba@),
{
    let len = rgba.len();
    let n = len / 4;
    let mut out: Vec<u8> = Vec::new();
    let mut i: usize = 0;
    while i < n
        invariant
            n == rgba@.len() / 4,
            len == rgba@.len(),
            n == len / 4,
            i <= n,
            out@.len() == i * 4,
            forall|j: int| 0 <= j < i * 4 ==> out@[j] == argb_of(rgba@)[j],
        decreases n - i,
    {
        assert(i * 4 + 3 < len) by (nonlinear_arith)
            requires
                i < n,
                n == len / 4,
        ;
        let b = i * 4;
        out.push(rgba[b + 3]);
        out.push(rgba[b]);
        out.push(rgba[b + 1]);
        out.push(rgba[b + 2]);
        proof {
            assert forall|j: int| 0 <= j < (i + 1) * 4 implies out@[j] == argb_of(rgba@)[j] by {
                if j >= i * 4 {
                    assert(j / 4 == i) by (nonlinear_arith)
                        requires
                            i * 4 <= j < (i + 1) * 4,
                    ;
                    assert(j / 4 * 4 == i * 4);
                }
            }
        }
        i = i + 1;
    }
    assert(out@ =~= argb_of(rgba@));
    out
}

/// What the PNG decoder makes of an image: width, height, whether the
/// output is RGBA, whether it has 8 bits per sample, and the frame's bytes.
pub uninterp spec fn png_frame(bytes: Seq<u8>) -> Option<(u32, u32, bool, bool, Seq<u8>)>;

/// A decoded PNG frame.
#[derive(Debug)]
pub struct PngFrame {
    pub width: u32,
    pub height: u32,
    pub rgba: bool,
    pub eight_bit: bool,
    pub pixels: Vec<u8>,
}

pub open spec fn frame_view(f: Option<PngFrame>) -> Option<(u32, u32, bool, bool, Seq<u8>)> {
    match f {
        Some(x) => Some((x.width, x.height, x.rgba, x.eight_bit, x.pixels@)),
        None => None,
    }
}

/// `png::Decoder::new(bytes).read_info()` then `next_frame` into a buffer
/// of `output_buffer_size()` bytes, keeping the frame's `buffer_size()`
/// bytes. Claimed: the result is named by [`png_frame`]; `None` when either
/// step fails.
#[verifier::external_body]
fn decode_png(bytes: &[u8]) -> (r: Option<PngFrame>)
    ensures
        frame_view(r) == png_frame(bytes@),
{
    let mut reader = png::Decoder::new(bytes).read_info().ok()?;
    let mut buf = vec![0u8; reader.output_buffer_size()];
    let info = reader.next_frame(&mut buf).ok()?;
    buf.truncate(info.buffer_size());
    Some(PngFrame {
        width: info.width,
        height: info.height,
        rgba: info.color_type == png::ColorType::Rgba,
        eight_bit: info.bit_depth == png::BitDepth::Eight,
        pixels: buf,
    })
}

/// An ARGB32 tray pixmap.
#[derive(Debug)]
pub struct TrayIcon {
    pub width: i32,
    pub height: i32,
    pub data: Vec<u8>,
}

/// Decode an RGBA8 PNG into a tray pixmap; other formats are refused.
pub fn to_icon(bytes: &[u8]) -> (r: Option<TrayIcon>)
    ensures
        match png_frame(bytes@) {
            Some((w, h, rgba, eight, px)) => if rgba && eight {
                r is Some && r->0.width == w as i32 && r->0.height == h as i32 && r->0.data@
                    == argb_of(px)
            } else {
                r is None
            },
            None => r is None,
        },
{
    let f = match decode_png(bytes) {
        Some(f) => f,
        None => {
            return None;
        },
    };
    if !f.rgba || !f.eight_bit {
        return None;
    }
    let data = rgba_to_argb(f.pixels.as_slice());
    Some(TrayIcon { width: f.width as i32, height: f.height as i32, data })
}

// ---------------------------------------------------------------------------
// menu and state payload
// ---------------------------------------------------------------------------

/// The menu's status line: the status's label, except that an error shows
/// as just `Error`, so a long message cannot widen the menu.
pub open spec fn menu_label(s: Status) -> Seq<char> {
    match s {
        Status::Error(_) => "Status: Error"@,
        _ => "Status: "@ + status_label(s),
    }
}

/// The menu's status line.
pub fn menu_status_label(status: &Status) -> (r: String)
    ensures
        r@ == menu_label(*status),
{
    if let Status::Error(_) = status {
        return "Status: Error".to_owned();
    }
    let mut v = lit("Status: ");
    let l = status.label();
    extend(&mut v, &chars_of(l.as_str()));
    string_of(&v)
}

/// The Disconnect item is enabled only while a connection is active.
pub fn disconnect_enabled(status: &Status) -> (r: bool)
    ensures
        r == status_active(*status),
{
    status.is_active()
}

/// The status as a number for the webview: 0 disconnected, 1 in progress,
/// 2 connected, 3 error.
pub open spec fn status_kind_spec(s: Status) -> i32 {
    match s {
        Status::Disconnected => 0,
        Status::Connecting | Status::Disconnecting => 1,
        Status::Connected => 2,
        Status::Error(_) => 3,
    }
}

pub fn status_kind(status: &Status) -> (r: i32)
    ensures
        r == status_kind_spec(*status),
{
    match status {
        Status::Disconnected => 0,
        Status::Connecting | Status::Disconnecting => 1,
        Status::Connected => 2,
        Status::Error(_) => 3,
    }
}

/// The connection state pushed to the webview.
#[derive(Debug)]
pub struct StatePayload {
    pub status: String,
    pub kind: i32,
    pub log: String,
    pub active: bool,
    pub busy: bool,
    pub portal: String,
    pub gateway: String,
    pub ip: String,
    pub iface: String,
    pub expires: String,
}

pub fn build_state(s: &Shared) -> (r: StatePayload)
    ensures
        r.status@ == status_label(s.status),
        r.kind == status_kind_spec(s.status),
        r.log == s.log,
        r.active == status_active(s.status),
        r.busy == (s.status is Connecting || s.status is Disconnecting),
        r.portal == s.conn.portal,
        r.gateway == s.conn.gateway,
        r.ip == s.conn.ip,
        r.iface == s.conn.iface,
        r.expires == s.conn.expires,
{
    let busy = match &s.status {
        Status::Connecting | Status::Disconnecting => true,
        _ => false,
    };
    StatePayload {
        status: s.status.label(),
        kind: status_kind(&s.status),
        log: s.log.clone(),
        active: s.status.is_active(),
        busy,
        portal: s.conn.portal.clone(),
        gateway: s.conn.gateway.clone(),
        ip: s.conn.ip.clone(),
        iface: s.conn.iface.clone(),
        expires: s.conn.expires.clone(),
    }
}

} // verus!
