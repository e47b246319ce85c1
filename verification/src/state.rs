//! The GUI's shared connection state and the decisions the connection
//! manager makes on it: which connection generation is current, what a status
//! change does (and which desktop notification it raises), what each event
//! from the service does, and how the live connection details are derived.

use vstd::prelude::*;
use crate::session::{expiry_text, humanize_expiry_at, unix_now};
use crate::text::{
    chars_of, extend, lines, lines_vec, lit, starts_with, string_of, views, words, words_vec,
    split_once, split_once_vec, find_char, find_char_vec, slice,
};

verus! {

/// The connection status shown in the window and the tray.
#[derive(Debug, Clone, PartialEq, Default)]
pub enum Status {
    #[default]
    Disconnected,
    Connecting,
    Connected,
    Disconnecting,
    Error(String),
}

pub open spec fn status_label(s: Status) -> Seq<char> {
    match s {
        Status::Disconnected => "Disconnected"@,
        Status::Connecting => "Connecting…"@,
        Status::Connected => "Connected"@,
        Status::Disconnecting => "Disconnecting…"@,
        Status::Error(e) => "Error: "@ + e@,
    }
}

pub open spec fn status_active(s: Status) -> bool {
    s is Connecting || s is Connected || s is Disconnecting
}

impl Status {
    /// The status in words.
    pub fn label(&self) -> (r: String)
        ensures
            r@ == status_label(*self),
    {
        match self {
            Status::Disconnected => "Disconnected".to_owned(),
            Status::Connecting => "Connecting…".to_owned(),
            Status::Connected => "Connected".to_owned(),
            Status::Disconnecting => "Disconnecting…".to_owned(),
            Status::Error(e) => {
                let mut v = lit("Error: ");
                let ev = chars_of(e.as_str());
                extend(&mut v, &ev);
                string_of(&v)
            },
        }
    }

    /// True while a connection exists or is being set up or torn down.
    pub fn is_active(&self) -> (r: bool)
        ensures
            r == status_active(*self),
    {
        match self {
            Status::Connecting | Status::Connected | Status::Disconnecting => true,
            _ => false,
        }
    }
}

/// Details of the live connection, shown on the connected view.
#[derive(Debug, Clone)]
pub struct ConnDetails {
    pub portal: String,
    /// Gateway as `name (address)`, or the address alone.
    pub gateway: String,
    /// The expiry countdown, e.g. `expires in 11h 59m`.
    pub expires: String,
    /// Unix epoch the session expires at, for the live countdown.
    pub expires_at: Option<u64>,
    pub ip: String,
    pub iface: String,
}

pub open spec fn conn_empty(c: ConnDetails) -> bool {
    &&& c.portal@.len() == 0
    &&& c.gateway@.len() == 0
    &&& c.expires@.len() == 0
    &&& c.expires_at is None
    &&& c.ip@.len() == 0
    &&& c.iface@.len() == 0
}

impl Default for ConnDetails {
    fn default() -> (r: Self)
        ensures
            conn_empty(r),
    {
        ConnDetails {
            portal: String::new(),
            gateway: String::new(),
            expires: String::new(),
            expires_at: None,
            ip: String::new(),
            iface: String::new(),
        }
    }
}

/// The state shared by the connection manager, the window and the tray.
#[derive(Debug, Default)]
pub struct Shared {
    pub status: Status,
    /// Last progress line, shown in the status area.
    pub log: String,
    /// Generation counter, so a stale connection's reader cannot clobber a
    /// newer connection's state.
    pub current_gen: u64,
    /// Live connection details (valid while connected).
    pub conn: ConnDetails,
}

/// A desktop notification.
#[derive(Debug)]
pub struct Notification {
    pub summary: String,
    pub body: String,
}

pub open spec fn notice_view(n: Option<Notification>) -> Option<(Seq<char>, Seq<char>)> {
    match n {
        Some(x) => Some((x.summary@, x.body@)),
        None => None,
    }
}

/// The notification a status change raises: on reaching Connected from any
/// other status; on reaching Disconnected from an active status; on an error
/// while active.
pub open spec fn status_notice(was: Status, now: Status, portal: Seq<char>) -> Option<
    (Seq<char>, Seq<char>),
> {
    if !(was is Connected) && now is Connected {
        Some(
            (
                "GlobalProtect connected"@,
                "Connected to "@ + if portal.len() == 0 {
                    "GlobalProtect"@
                } else {
                    portal
                },
            ),
        )
    } else if status_active(was) && now is Disconnected {
        Some(("GlobalProtect disconnected"@, "The VPN connection has ended"@))
    } else if now is Error && status_active(was) {
        Some(("GlobalProtect error"@, now->Error_0@))
    } else {
        None
    }
}

/// The notifications a status change raises. Reaching Connected from any
/// other status announces the connection to the portal; leaving an active
/// status (Connecting, Connected or Disconnecting) for Disconnected
/// announces its end, and for an error reports that error's text. Nothing
/// else raises a notification: an error after Disconnected or after another
/// error, moves between active statuses, or staying Connected.
pub proof fn status_changes_notify(was: Status, e: String, portal: Seq<char>)
    ensures
        was is Connecting || was is Connected || was is Disconnecting ==> {
            &&& status_notice(was, Status::Error(e), portal) == Some(("GlobalProtect error"@, e@))
            &&& status_notice(was, Status::Disconnected, portal) == Some(
                ("GlobalProtect disconnected"@, "The VPN connection has ended"@),
            )
        },
        was is Disconnected || was is Error ==> {
            &&& status_notice(was, Status::Error(e), portal) is None
            &&& status_notice(was, Status::Disconnected, portal) is None
        },
        !(was is Connected) ==> status_notice(was, Status::Connected, portal) == Some(
            (
                "GlobalProtect connected"@,
                "Connected to "@ + if portal.len() == 0 {
                    "GlobalProtect"@
                } else {
                    portal
                },
            ),
        ),
        status_notice(was, Status::Connecting, portal) is None,
        status_notice(was, Status::Disconnecting, portal) is None,
        was is Connected ==> status_notice(was, Status::Connected, portal) is None,
{
}

/// A status that clears the progress line.
pub open spec fn terminal(s: Status) -> bool {
    s is Connected || s is Disconnected
}

/// An event from the service about the connection of one generation.
#[derive(Debug)]
pub enum VpnEvent {
    Connected(ConnDetails),
    Connecting,
    Disconnecting,
    Disconnected,
    /// The event stream ended: the service closed the connection or died.
    Closed,
}

/// The text of a tunnel state for the UI; a closed event stream reads as
/// disconnected.
pub open spec fn vpn_event_label(e: VpnEvent) -> Seq<char> {
    match e {
        VpnEvent::Disconnected | VpnEvent::Closed => "Disconnected"@,
        VpnEvent::Connecting => "Connecting…"@,
        VpnEvent::Connected(_) => "Connected"@,
        VpnEvent::Disconnecting => "Disconnecting…"@,
    }
}

impl VpnEvent {
    pub fn label(&self) -> (r: &'static str)
        ensures
            r@ == vpn_event_label(*self),
    {
        match self {
            VpnEvent::Disconnected | VpnEvent::Closed => "Disconnected",
            VpnEvent::Connecting => "Connecting…",
            VpnEvent::Connected(_) => "Connected",
            VpnEvent::Disconnecting => "Disconnecting…",
        }
    }
}

/// What the manager does after an event besides updating the state.
#[derive(Debug)]
pub struct EventEffects {
    pub notification: Option<Notification>,
    /// Look the tunnel interface up, as the service did not report it.
    pub scan_tunnel: bool,
    /// Start the expiry countdown for this epoch.
    pub session_timer: Option<u64>,
}

impl Shared {
    /// Begin a new connection generation; returns its id.
    pub fn bump(&mut self) -> (r: u64)
        requires
            old(self).current_gen < u64::MAX,
        ensures
            r == old(self).current_gen + 1,
            final(self).current_gen == r,
            final(self).status == old(self).status,
            final(self).log == old(self).log,
            final(self).conn == old(self).conn,
    {
        self.current_gen = self.current_gen + 1;
        self.current_gen
    }

    /// Apply a status if `generation` is still the current one; returns the
    /// notification the change raises.
    pub fn apply_status(&mut self, generation: u64, status: Status) -> (r: Option<Notification>)
        ensures
            generation != old(self).current_gen ==> *final(self) == *old(self) && r is None,
            generation == old(self).current_gen ==> {
                &&& final(self).status == status
                &&& final(self).current_gen == old(self).current_gen
                &&& final(self).conn == old(self).conn
                &&& final(self).log@ == if terminal(status) {
                    Seq::<char>::empty()
                } else {
                    old(self).log@
                }
                &&& notice_view(r) == status_notice(old(self).status, status, old(self).conn.portal@)
            },
    {
        if self.current_gen != generation {
            return None;
        }
        let was_connected = match &self.status {
            Status::Connected => true,
            _ => false,
        };
        let was_active = self.status.is_active();
        let now_connected = match &status {
            Status::Connected => true,
            _ => false,
        };
        let now_disconnected = match &status {
            Status::Disconnected => true,
            _ => false,
        };
        if now_connected || now_disconnected {
            self.log = String::new();
        }
        let mut notify: Option<Notification> = None;
        if !was_connected && now_connected {
            let portal = if self.conn.portal.unicode_len() == 0 {
                "GlobalProtect".to_owned()
            } else {
                self.conn.portal.clone()
            };
            let mut body = lit("Connected to ");
            let pv = chars_of(portal.as_str());
            extend(&mut body, &pv);
            notify = Some(
                Notification {
                    summary: "GlobalProtect connected".to_owned(),
                    body: string_of(&body),
                },
            );
        } else if was_active && now_disconnected {
            notify = Some(
                Notification {
                    summary: "GlobalProtect disconnected".to_owned(),
                    body: "The VPN connection has ended".to_owned(),
                },
            );
        } else {
            match &status {
                Status::Error(e) => {
                    if was_active {
                        notify = Some(
                            Notification {
                                summary: "GlobalProtect error".to_owned(),
                                body: e.clone(),
                            },
                        );
                    }
                },
                _ => {},
            }
        }
        self.status = status;
        notify
    }

    /// Store live connection details if `generation` is still current.
    pub fn apply_conn(&mut self, generation: u64, conn: ConnDetails) -> (r: bool)
        ensures
            r == (generation == old(self).current_gen),
            !r ==> *final(self) == *old(self),
            r ==> final(self).conn == conn && final(self).status == old(self).status
                && final(self).log == old(self).log && final(self).current_gen
                == old(self).current_gen,
    {
        if self.current_gen != generation {
            return false;
        }
        self.conn = conn;
        true
    }

    /// Start a new generation in `status` (Connecting on a connect command,
    /// Disconnecting on a disconnect command).
    pub fn start_generation(&mut self, status: Status) -> (r: (u64, Option<Notification>))
        requires
            old(self).current_gen < u64::MAX,
        ensures
            r.0 == old(self).current_gen + 1,
            final(self).current_gen == r.0,
            final(self).status == status,
            final(self).conn == old(self).conn,
            notice_view(r.1) == status_notice(old(self).status, status, old(self).conn.portal@),
    {
        let g = self.bump();
        let n = self.apply_status(g, status);
        (g, n)
    }

    /// What an event from the service about connection `generation` does.
    pub fn on_vpn_event(&mut self, generation: u64, ev: VpnEvent) -> (r: EventEffects)
        ensures
            generation != old(self).current_gen ==> *final(self) == *old(self)
                && r.notification is None,
            final(self).current_gen == old(self).current_gen,
            match ev {
                VpnEvent::Connected(d) => {
                    &&& r.scan_tunnel == (d.iface@.len() == 0)
                    &&& r.session_timer == d.expires_at
                    &&& generation == old(self).current_gen ==> final(self).conn == d
                        && final(self).status == Status::Connected && notice_view(r.notification)
                        == status_notice(old(self).status, Status::Connected, d.portal@)
                },
                VpnEvent::Connecting => {
                    &&& !r.scan_tunnel && r.session_timer is None
                    &&& generation == old(self).current_gen ==> final(self).status
                        == Status::Connecting && final(self).conn == old(self).conn
                },
                VpnEvent::Disconnecting => {
                    &&& !r.scan_tunnel && r.session_timer is None
                    &&& generation == old(self).current_gen ==> final(self).status
                        == Status::Disconnecting && final(self).conn == old(self).conn
                },
                _ => {
                    &&& !r.scan_tunnel && r.session_timer is None
                    &&& generation == old(self).current_gen ==> final(self).status
                        == Status::Disconnected && conn_empty(final(self).conn)
                        && notice_view(r.notification) == status_notice(
                        old(self).status,
                        Status::Disconnected,
                        final(self).conn.portal@,
                    )
                },
            },
    {
        match ev {
            VpnEvent::Connected(d) => {
                let scan = d.iface.unicode_len() == 0;
                let at = d.expires_at;
                self.apply_conn(generation, d);
                let n = self.apply_status(generation, Status::Connected);
                EventEffects { notification: n, scan_tunnel: scan, session_timer: at }
            },
            VpnEvent::Connecting => {
                let n = self.apply_status(generation, Status::Connecting);
                EventEffects { notification: n, scan_tunnel: false, session_timer: None }
            },
            VpnEvent::Disconnecting => {
                let n = self.apply_status(generation, Status::Disconnecting);
                EventEffects { notification: n, scan_tunnel: false, session_timer: None }
            },
            _ => {
                self.apply_conn(generation, ConnDetails::default());
                let n = self.apply_status(generation, Status::Disconnected);
                EventEffects { notification: n, scan_tunnel: false, session_timer: None }
            },
        }
    }

    /// One tick of the expiry countdown at time `now`: keeps going only while
    /// `generation` is current and connected, and then refreshes the text.
    pub fn tick_expiry(&mut self, generation: u64, expires_at: u64, now: u64) -> (r: bool)
        ensures
            r == (generation == old(self).current_gen && old(self).status is Connected),
            !r ==> *final(self) == *old(self),
            r ==> final(self).conn.expires@ == expiry_text(expires_at as nat, now as nat)
                && final(self).conn.portal == old(self).conn.portal && final(self).conn.gateway
                == old(self).conn.gateway && final(self).conn.ip == old(self).conn.ip
                && final(self).conn.iface == old(self).conn.iface && final(self).conn.expires_at
                == old(self).conn.expires_at && final(self).status == old(self).status
                && final(self).current_gen == old(self).current_gen,
    {
        let connected = match &self.status {
            Status::Connected => true,
            _ => false,
        };
        if self.current_gen != generation || !connected {
            return false;
        }
        self.conn.expires = humanize_expiry_at(expires_at, now);
        true
    }

    /// Fill in the tunnel interface and address found by a lookup, only while
    /// `generation` is current and connected.
    pub fn apply_tunnel(&mut self, generation: u64, iface: String, ip: String) -> (r: bool)
        ensures
            r == (generation == old(self).current_gen && old(self).status is Connected),
            !r ==> *final(self) == *old(self),
            r ==> final(self).conn.iface == iface && final(self).conn.ip == ip
                && final(self).conn.portal == old(self).conn.portal && final(self).conn.gateway
                == old(self).conn.gateway && final(self).conn.expires == old(self).conn.expires
                && final(self).status == old(self).status && final(self).current_gen
                == old(self).current_gen,
    {
        let connected = match &self.status {
            Status::Connected => true,
            _ => false,
        };
        if self.current_gen != generation || !connected {
            return false;
        }
        self.conn.iface = iface;
        self.conn.ip = ip;
        true
    }
}

/// A stale generation cannot change the state: after a new generation
/// starts, an earlier connection's status or details are ignored.
pub proof fn stale_generation_is_ignored(before: Shared, bumped: Shared, g: u64)
    requires
        bumped.current_gen == before.current_gen + 1,
        g <= before.current_gen,
    ensures
        g != bumped.current_gen,
{
}

// ---------------------------------------------------------------------------
// connection details from the service's Connected payload
// ---------------------------------------------------------------------------

/// The fields of the service's `ConnectedInfo` payload that the connected
/// view shows (each absent when missing or of another JSON type).
#[derive(Debug, Default)]
pub struct ConnectedFields {
    pub portal: Option<String>,
    pub gateway_name: Option<String>,
    pub gateway_address: Option<String>,
    pub user_expires: Option<u64>,
    pub lifetime_secs: Option<u64>,
    pub expires_in_human: Option<String>,
    pub tun_iface: Option<String>,
    pub ipv4: Option<String>,
    pub ipv6: Option<String>,
}

pub open spec fn or_empty(o: Option<String>) -> Seq<char> {
    match o {
        Some(s) => s@,
        None => Seq::empty(),
    }
}

/// The gateway as shown: the address alone when the name is empty or the
/// address itself, else `name (address)`.
pub open spec fn gateway_text(name: Seq<char>, addr: Seq<char>) -> Seq<char> {
    if name.len() == 0 || name == addr {
        addr
    } else {
        name + seq![' ', '('] + addr + seq![')']
    }
}

/// The session's expiry epoch at time `now`: the gateway's absolute expiry
/// when still ahead, else `now` plus the lifetime (when that fits).
pub open spec fn expiry_epoch(f: ConnectedFields, now: u64) -> Option<u64> {
    match f.user_expires {
        Some(e) if e > now => Some(e),
        _ => match f.lifetime_secs {
            Some(l) => if now + l <= u64::MAX {
                Some((now + l) as u64)
            } else {
                None
            },
            None => None,
        },
    }
}

/// The connection details of a payload at time `now`.
pub open spec fn details_match(d: ConnDetails, f: ConnectedFields, now: u64) -> bool {
    &&& d.portal@ == or_empty(f.portal)
    &&& d.gateway@ == gateway_text(or_empty(f.gateway_name), or_empty(f.gateway_address))
    &&& d.expires_at == expiry_epoch(f, now)
    &&& d.expires@ == match expiry_epoch(f, now) {
        Some(at) => expiry_text(at as nat, now as nat),
        None => or_empty(f.expires_in_human),
    }
    &&& d.iface@ == or_empty(f.tun_iface)
    &&& d.ip@ == match f.ipv4 {
        Some(v4) => v4@,
        None => or_empty(f.ipv6),
    }
}

fn take_or_empty(o: Option<String>) -> (r: String)
    ensures
        r@ == or_empty(o),
{
    match o {
        Some(s) => s,
        None => String::new(),
    }
}

/// The connection details of a payload at time `now`.
pub fn conn_details_at(f: ConnectedFields, now: u64) -> (r: ConnDetails)
    ensures
        details_match(r, f, now),
{
    let ghost f0 = f;
    let expires_at: Option<u64> = match f.user_expires {
        Some(e) if e > now => Some(e),
        _ => match f.lifetime_secs {
            Some(l) => now.checked_add(l),
            None => None,
        },
    };
    let expires = match expires_at {
        Some(at) => humanize_expiry_at(at, now),
        None => take_or_empty(f.expires_in_human),
    };
    let portal = take_or_empty(f.portal);
    let name = take_or_empty(f.gateway_name);
    let addr = take_or_empty(f.gateway_address);
    let gateway = if name.unicode_len() == 0 || name == addr {
        addr
    } else {
        let mut v = chars_of(name.as_str());
        v.push(' ');
        v.push('(');
        let av = chars_of(addr.as_str());
        extend(&mut v, &av);
        v.push(')');
        proof {
            assert(v@ =~= gateway_text(name@, addr@));
        }
        string_of(&v)
    };
    let iface = take_or_empty(f.tun_iface);
    let ip = match f.ipv4 {
        Some(v4) => v4,
        None => take_or_empty(f.ipv6),
    };
    ConnDetails { portal, gateway, expires, expires_at, ip, iface }
}

/// The connection details of a payload now: for whatever the clock reads,
/// the details at that time.
pub fn parse_conn_details(f: ConnectedFields) -> (r: ConnDetails)
    ensures
        exists|now: u64| #[trigger] details_match(r, f, now),
{
    let now = unix_now();
    conn_details_at(f, now)
}

// ---------------------------------------------------------------------------
// the tunnel interface from `ip -o -4 addr show`
// ---------------------------------------------------------------------------

/// An interface name a VPN tunnel uses.
pub open spec fn tunnel_iface(s: Seq<char>) -> bool {
    starts_with(s, "tun"@) || starts_with(s, "gpd"@) || starts_with(s, "vpn"@)
}

/// The token after the first `inet` that has one after it.
pub open spec fn inet_addr(t: Seq<Seq<char>>, i: int) -> Option<Seq<char>>
    decreases t.len() - i,
{
    if i < 0 || i + 1 >= t.len() {
        None
    } else if t[i] == "inet"@ {
        Some(t[i + 1])
    } else {
        inet_addr(t, i + 1)
    }
}

/// The text before the first `/`.
pub open spec fn before_slash(s: Seq<char>) -> Seq<char> {
    match find_char(s, '/') {
        Some(i) => s.take(i),
        None => s,
    }
}

/// The first tunnel interface in the listing `ls` from line `k` on, with
/// its IPv4 address; nothing once a line has fewer than two words.
pub open spec fn tunnel_from(ls: Seq<Seq<char>>, k: int) -> Option<(Seq<char>, Seq<char>)>
    decreases ls.len() - k,
{
    if k < 0 || k >= ls.len() {
        None
    } else {
        let t = words(ls[k]);
        if t.len() < 2 {
            None
        } else if tunnel_iface(t[1]) && inet_addr(t, 0) is Some {
            Some((t[1], before_slash(inet_addr(t, 0)->0)))
        } else {
            tunnel_from(ls, k + 1)
        }
    }
}

fn inet_addr_vec(t: &Vec<Vec<char>>) -> (r: Option<Vec<char>>)
    ensures
        match r {
            Some(a) => inet_addr(views(t@), 0) == Some(a@),
            None => inet_addr(views(t@), 0) is None,
        },
{
    let ghost tv = views(t@);
    proof {
        reveal_strlit("inet");
    }
    let mut i: usize = 0;
    while i < t.len() && i + 1 < t.len()
        invariant
            tv == views(t@),
            inet_addr(tv, 0) == inet_addr(tv, i as int),
        decreases t.len() - i,
    {
        assert(tv[i as int] == t@[i as int]@);
        if crate::text::eq_str(&t[i], "inet") {
            let a = slice(&t[i + 1], 0, t[i + 1].len());
            assert(a@ =~= tv[i + 1]);
            return Some(a);
        }
        i = i + 1;
    }
    None
}

/// The first VPN tunnel interface, and its IPv4 address, in the output of
/// `ip -o -4 addr show`.
pub fn tunnel_addr_in(text: &str) -> (r: Option<(String, String)>)
    ensures
        match r {
            Some((i, a)) => tunnel_from(lines(text@), 0) == Some((i@, a@)),
            None => tunnel_from(lines(text@), 0) is None,
        },
{
    let all = chars_of(text);
    let ls = lines_vec(&all);
    let ghost lv = views(ls@);
    proof {
        reveal_strlit("tun");
        reveal_strlit("gpd");
        reveal_strlit("vpn");
    }
    let mut k: usize = 0;
    while k < ls.len()
        invariant
            lv == views(ls@),
            lv == lines(text@),
            k <= ls@.len(),
            tunnel_from(lv, 0) == tunnel_from(lv, k as int),
        decreases ls.len() - k,
    {
        assert(lv[k as int] == ls@[k as int]@);
        let t = words_vec(&ls[k]);
        if t.len() < 2 {
            return None;
        }
        assert(views(t@)[1] == t@[1]@);
        let iface = &t[1];
        let is_tun = crate::text::has_prefix_str(iface, "tun") || crate::text::has_prefix_str(
            iface,
            "gpd",
        ) || crate::text::has_prefix_str(iface, "vpn");
        if is_tun {
            match inet_addr_vec(&t) {
                Some(a) => {
                    proof {
                        crate::text::lemma_find_char_spec(a@, '/');
                    }
                    let ip = match find_char_vec(&a, '/') {
                        Some(j) => slice(&a, 0, j),
                        None => slice(&a, 0, a.len()),
                    };
                    assert(ip@ =~= before_slash(a@));
                    return Some((string_of(iface), string_of(&ip)));
                },
                None => {},
            }
        }
        k = k + 1;
    }
    None
}

} // verus!
