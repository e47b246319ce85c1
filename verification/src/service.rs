//! The privileged service's decisions: when a connect or a resume reconnect
//! may start, how a tunnel that dies unexpectedly is re-established (a
//! bounded number of times), how the gateway's physical route is captured and
//! re-asserted across a resume, which GUI controls the tunnel, and what the
//! SSO callback handler accepts.

use vstd::prelude::*;
use crate::text::{
    chars_of, eq_str, find_char, find_char_vec, has_prefix_str, lit, slice, starts_with,
    strip_all_prefix, strip_all_prefix_vec, string_of, views, words, words_vec,
};

verus! {

// ---------------------------------------------------------------------------
// the tunnel's state
// ---------------------------------------------------------------------------

/// The phase of the tunnel, as broadcast to the GUIs.
#[derive(Debug, Clone, Copy, PartialEq, Eq)]
pub enum VpnPhase {
    Disconnected,
    Connecting,
    Connected,
    Reconnecting,
    Disconnecting,
    /// Mid-authentication: the portal offered several gateways and the user
    /// is picking one.
    GatewaySelect,
}

/// A connect request is served while disconnected, or while the gateway
/// picker is up (the pick then starts the tunnel); otherwise it is ignored.
pub open spec fn may_connect_spec(phase: VpnPhase) -> bool {
    phase == VpnPhase::Disconnected || phase == VpnPhase::GatewaySelect
}

pub fn may_connect(phase: VpnPhase) -> (r: bool)
    ensures
        r == may_connect_spec(phase),
{
    match phase {
        VpnPhase::Disconnected => true,
        VpnPhase::GatewaySelect => true,
        _ => false,
    }
}

/// A resume reconnect runs only while connected.
pub fn may_reconnect(phase: VpnPhase) -> (r: bool)
    ensures
        r == (phase == VpnPhase::Connected),
{
    match phase {
        VpnPhase::Connected => true,
        _ => false,
    }
}

/// What the connection task keeps between requests: the tunnel's phase,
/// whether the user asked to disconnect, and the live connect request (kept
/// so a tunnel that dies can be rebuilt without signing in again).
#[derive(Debug)]
pub struct TaskState<R> {
    pub phase: VpnPhase,
    pub user_disconnect: bool,
    pub last_request: Option<R>,
}

/// A connect request is taken only while the tunnel is down or the gateway
/// picker is up; while it is being set up, is up, is being rebuilt or is
/// being torn down, a request is refused.
pub proof fn connect_is_taken_only_when_idle(phase: VpnPhase)
    ensures
        may_connect_spec(VpnPhase::Disconnected),
        may_connect_spec(VpnPhase::GatewaySelect),
        !may_connect_spec(VpnPhase::Connecting),
        !may_connect_spec(VpnPhase::Connected),
        !may_connect_spec(VpnPhase::Reconnecting),
        !may_connect_spec(VpnPhase::Disconnecting),
        may_connect_spec(phase) <==> (phase is Disconnected || phase is GatewaySelect),
{
}

/// A connect request. When [`may_connect`] allows it, the request becomes
/// the live one and the user-disconnect flag is cleared; the phase is then
/// Connecting when the tunnel could be built (`tunnel_built`), else
/// Disconnected. Otherwise nothing changes. Returns whether it was accepted.
pub fn connect_step<R>(st: &mut TaskState<R>, req: R, tunnel_built: bool) -> (accepted: bool)
    ensures
        accepted == may_connect_spec(old(st).phase),
        accepted ==> {
            &&& final(st).last_request == Some(req)
            &&& !final(st).user_disconnect
            &&& final(st).phase == if tunnel_built {
                VpnPhase::Connecting
            } else {
                VpnPhase::Disconnected
            }
        },
        !accepted ==> *final(st) == *old(st),
{
    if !may_connect(st.phase) {
        return false;
    }
    st.user_disconnect = false;
    st.last_request = Some(req);
    st.phase = if tunnel_built {
        VpnPhase::Connecting
    } else {
        VpnPhase::Disconnected
    };
    true
}

// ---------------------------------------------------------------------------
// re-establishing a tunnel that died
// ---------------------------------------------------------------------------

/// How many times a tunnel that died unexpectedly is re-established before
/// giving up.
pub const MAX_RECONNECT_ATTEMPTS: u32 = 10;

/// What the connection thread reports.
#[derive(Debug, Clone, Copy, PartialEq, Eq)]
pub enum TunnelEvent {
    /// openconnect's main loop returned; whether the user asked to
    /// disconnect.
    MainloopExited { user_disconnect: bool },
    /// The wait for the network is over; whether the user asked to
    /// disconnect meanwhile.
    NetworkWaited { user_disconnect: bool },
    /// The tunnel was rebuilt from the stored request, or could not be.
    Rebuilt { ok: bool },
}

/// What the connection thread does next.
#[derive(Debug, Clone, Copy, PartialEq, Eq)]
pub enum TunnelAction {
    /// Run openconnect's main loop on the (re)built tunnel.
    RunMainloop,
    /// Wait for the gateway to be reachable; announce Reconnecting first when
    /// connection details are known.
    WaitForNetwork { announce: bool },
    /// Rebuild the tunnel from the stored request (same cookie, no re-auth).
    Rebuild,
    /// Give up: broadcast Disconnected and drop the tunnel.
    Stop,
}

/// The decision on an event, with the attempts made so far: the next attempt
/// count and the action.
pub open spec fn tunnel_step(attempt: u32, ev: TunnelEvent, have_info: bool) -> (u32, TunnelAction) {
    match ev {
        TunnelEvent::MainloopExited { user_disconnect } => if user_disconnect {
            (attempt, TunnelAction::Stop)
        } else if attempt + 1 > MAX_RECONNECT_ATTEMPTS {
            ((attempt + 1) as u32, TunnelAction::Stop)
        } else {
            ((attempt + 1) as u32, TunnelAction::WaitForNetwork { announce: have_info })
        },
        TunnelEvent::NetworkWaited { user_disconnect } => if user_disconnect {
            (attempt, TunnelAction::Stop)
        } else {
            (attempt, TunnelAction::Rebuild)
        },
        TunnelEvent::Rebuilt { ok } => if ok {
            (attempt, TunnelAction::RunMainloop)
        } else {
            (attempt, TunnelAction::Stop)
        },
    }
}

/// How the connection thread reacts: a user disconnect always stops it; an
/// unexpected exit counts one attempt and, while attempts remain, waits for
/// the network (announcing Reconnecting when details are known); after
/// `MAX_RECONNECT_ATTEMPTS` such exits it stops; after the wait it rebuilds
/// the tunnel, runs a rebuilt one and stops when the rebuild failed.
pub proof fn tunnel_thread_reactions(attempt: u32, have_info: bool)
    requires
        attempt <= MAX_RECONNECT_ATTEMPTS,
    ensures
        tunnel_step(attempt, TunnelEvent::MainloopExited { user_disconnect: true }, have_info).1
            == TunnelAction::Stop,
        tunnel_step(attempt, TunnelEvent::NetworkWaited { user_disconnect: true }, have_info).1
            == TunnelAction::Stop,
        tunnel_step(attempt, TunnelEvent::MainloopExited { user_disconnect: false }, have_info).0
            == attempt + 1,
        attempt < MAX_RECONNECT_ATTEMPTS ==> tunnel_step(
            attempt,
            TunnelEvent::MainloopExited { user_disconnect: false },
            have_info,
        ).1 == (TunnelAction::WaitForNetwork { announce: have_info }),
        attempt == MAX_RECONNECT_ATTEMPTS ==> tunnel_step(
            attempt,
            TunnelEvent::MainloopExited { user_disconnect: false },
            have_info,
        ).1 == TunnelAction::Stop,
        tunnel_step(attempt, TunnelEvent::NetworkWaited { user_disconnect: false }, have_info)
            == (attempt, TunnelAction::Rebuild),
        tunnel_step(attempt, TunnelEvent::Rebuilt { ok: true }, have_info) == (
        attempt, TunnelAction::RunMainloop),
        tunnel_step(attempt, TunnelEvent::Rebuilt { ok: false }, have_info) == (
        attempt, TunnelAction::Stop),
        MAX_RECONNECT_ATTEMPTS == 10,
{
}

/// The connection thread's retry state.
#[derive(Debug)]
pub struct TunnelLoop {
    /// Unexpected exits so far.
    pub attempt: u32,
}

impl TunnelLoop {
    pub fn new() -> (r: Self)
        ensures
            r.attempt == 0,
    {
        TunnelLoop { attempt: 0 }
    }

    /// Decide what follows `ev`; `have_info` tells whether connection
    /// details are known (to announce Reconnecting).
    pub fn step(&mut self, ev: TunnelEvent, have_info: bool) -> (r: TunnelAction)
        requires
            old(self).attempt <= MAX_RECONNECT_ATTEMPTS,
        ensures
            (final(self).attempt, r) == tunnel_step(old(self).attempt, ev, have_info),
            r != TunnelAction::Stop ==> final(self).attempt <= MAX_RECONNECT_ATTEMPTS,
    {
        match ev {
            TunnelEvent::MainloopExited { user_disconnect } => {
                if user_disconnect {
                    return TunnelAction::Stop;
                }
                self.attempt = self.attempt + 1;
                if self.attempt > MAX_RECONNECT_ATTEMPTS {
                    TunnelAction::Stop
                } else {
                    TunnelAction::WaitForNetwork { announce: have_info }
                }
            },
            TunnelEvent::NetworkWaited { user_disconnect } => {
                if user_disconnect {
                    TunnelAction::Stop
                } else {
                    TunnelAction::Rebuild
                }
            },
            TunnelEvent::Rebuilt { ok } => {
                if ok {
                    TunnelAction::RunMainloop
                } else {
                    TunnelAction::Stop
                }
            },
        }
    }
}

/// How many times the thread waits to re-establish the tunnel over a run of
/// events, starting after `attempt` exits (nothing follows a Stop).
pub open spec fn retries(attempt: u32, evs: Seq<TunnelEvent>, have_info: bool) -> nat
    decreases evs.len(),
{
    if evs.len() == 0 {
        0
    } else {
        let (a, act) = tunnel_step(attempt, evs[0], have_info);
        match act {
            TunnelAction::Stop => 0,
            TunnelAction::WaitForNetwork { .. } => 1 + retries(a, evs.drop_first(), have_info),
            _ => retries(a, evs.drop_first(), have_info),
        }
    }
}

/// Whatever the connection thread reports, a dead tunnel is re-established
/// at most `MAX_RECONNECT_ATTEMPTS` times before the service gives up.
pub proof fn reconnects_are_bounded(evs: Seq<TunnelEvent>, have_info: bool)
    ensures
        retries(0, evs, have_info) <= MAX_RECONNECT_ATTEMPTS,
{
    lemma_retries_bound(0, evs, have_info);
}

proof fn lemma_retries_bound(attempt: u32, evs: Seq<TunnelEvent>, have_info: bool)
    requires
        attempt <= MAX_RECONNECT_ATTEMPTS,
    ensures
        retries(attempt, evs, have_info) <= MAX_RECONNECT_ATTEMPTS - attempt,
    decreases evs.len(),
{
    if evs.len() > 0 {
        let (a, act) = tunnel_step(attempt, evs[0], have_info);
        if act != TunnelAction::Stop {
            lemma_retries_bound(a, evs.drop_first(), have_info);
        }
    }
}

// ---------------------------------------------------------------------------
// reconnecting after a resume
// ---------------------------------------------------------------------------

/// How many one-second tries the gateway route gets to come back after a
/// resume before the reconnect is triggered anyway.
pub const RESUME_NETWORK_WAIT_SECS: u32 = 10;

/// What follows a try at re-pinning the gateway route.
#[derive(Debug, Clone, Copy, PartialEq, Eq)]
pub enum ResumeAction {
    /// Sleep a second and try again.
    RetryAfterSleep,
    /// Trigger openconnect's in-place reconnect; whether the route is pinned.
    Reconnect { pinned: bool },
}

/// The decision after try number `attempt` (from 1) of re-pinning the route
/// succeeded (`ok`) or not: a success reconnects at once; a failure sleeps
/// first, and the last failure then reconnects anyway.
pub open spec fn resume_step(attempt: u32, ok: bool) -> ResumeAction {
    if ok {
        ResumeAction::Reconnect { pinned: true }
    } else if attempt < RESUME_NETWORK_WAIT_SECS {
        ResumeAction::RetryAfterSleep
    } else {
        ResumeAction::Reconnect { pinned: false }
    }
}

/// On any try, a route that is pinned again triggers the reconnect at once;
/// a failed try sleeps and tries again, except the last, which reconnects
/// anyway without the route.
pub proof fn a_pinned_route_reconnects_at_once(attempt: u32)
    requires
        1 <= attempt <= RESUME_NETWORK_WAIT_SECS,
    ensures
        resume_step(attempt, true) == (ResumeAction::Reconnect { pinned: true }),
        attempt < RESUME_NETWORK_WAIT_SECS ==> resume_step(attempt, false)
            == ResumeAction::RetryAfterSleep,
        attempt == RESUME_NETWORK_WAIT_SECS ==> resume_step(attempt, false) == (
        ResumeAction::Reconnect { pinned: false }),
        RESUME_NETWORK_WAIT_SECS == 10,
{
}

pub fn resume_next(attempt: u32, ok: bool) -> (r: ResumeAction)
    requires
        1 <= attempt <= RESUME_NETWORK_WAIT_SECS,
    ensures
        r == resume_step(attempt, ok),
{
    if ok {
        ResumeAction::Reconnect { pinned: true }
    } else if attempt < RESUME_NETWORK_WAIT_SECS {
        ResumeAction::RetryAfterSleep
    } else {
        ResumeAction::Reconnect { pinned: false }
    }
}

/// Over a resume, given the answers of the successive re-pin tries: how
/// many times the route is re-asserted and how many times the in-place
/// reconnect (openconnect's pause) is triggered, from try `attempt` on.
pub open spec fn resume_run(attempt: u32, oks: Seq<bool>) -> (nat, nat)
    decreases oks.len(),
{
    if oks.len() == 0 || attempt == 0 || attempt > RESUME_NETWORK_WAIT_SECS {
        (0, 0)
    } else {
        match resume_step(attempt, oks[0]) {
            ResumeAction::RetryAfterSleep => {
                let rest = resume_run((attempt + 1) as u32, oks.drop_first());
                (rest.0 + 1, rest.1)
            },
            ResumeAction::Reconnect { .. } => (1, 1),
        }
    }
}

/// A whole resume: nothing unless the tunnel is Connected; without a
/// captured route only the reconnect; else the re-pin tries, then the
/// reconnect.
pub open spec fn resume_effects(phase: VpnPhase, route_captured: bool, oks: Seq<bool>) -> (nat, nat) {
    if phase != VpnPhase::Connected {
        (0, 0)
    } else if !route_captured {
        (0, 1)
    } else {
        resume_run(1, oks)
    }
}

proof fn lemma_resume_run(attempt: u32, oks: Seq<bool>)
    requires
        1 <= attempt <= RESUME_NETWORK_WAIT_SECS,
    ensures
        resume_run(attempt, oks).0 <= RESUME_NETWORK_WAIT_SECS + 1 - attempt,
        resume_run(attempt, oks).1 <= 1,
    decreases oks.len(),
{
    if oks.len() > 0 {
        match resume_step(attempt, oks[0]) {
            ResumeAction::RetryAfterSleep => {
                lemma_resume_run((attempt + 1) as u32, oks.drop_first());
            },
            _ => {},
        }
    }
}

/// A resume re-asserts the gateway route at most
/// `RESUME_NETWORK_WAIT_SECS` times and triggers the in-place reconnect at
/// most once, whatever the tries answer; a tunnel that is not Connected is
/// left alone.
pub proof fn resume_is_bounded(phase: VpnPhase, route_captured: bool, oks: Seq<bool>)
    ensures
        resume_effects(phase, route_captured, oks).0 <= RESUME_NETWORK_WAIT_SECS,
        resume_effects(phase, route_captured, oks).1 <= 1,
        phase != VpnPhase::Connected ==> resume_effects(phase, route_captured, oks) == (0nat, 0nat),
{
    lemma_resume_run(1, oks);
}

// ---------------------------------------------------------------------------
// waiting for the network
// ---------------------------------------------------------------------------

/// How long the thread waits for the gateway to become reachable before
/// re-establishing a tunnel anyway, in seconds.
pub const NETWORK_WAIT_SECS: u64 = 10;

/// What the wait for the network does after a reachability probe.
#[derive(Debug, Clone, Copy, PartialEq, Eq)]
pub enum WaitStep {
    /// Stop waiting; whether the gateway answered.
    Proceed { reachable: bool },
    /// Sleep a second and probe again.
    Sleep,
}

/// After a probe at time `now` (seconds) with the wait ending at
/// `deadline`: a reachable gateway ends the wait, the deadline ends it
/// anyway, else keep waiting.
pub fn network_wait_step(reachable: bool, now: u64, deadline: u64) -> (r: WaitStep)
    ensures
        r == if reachable {
            WaitStep::Proceed { reachable: true }
        } else if now >= deadline {
            WaitStep::Proceed { reachable: false }
        } else {
            WaitStep::Sleep
        },
{
    if reachable {
        WaitStep::Proceed { reachable: true }
    } else if now >= deadline {
        WaitStep::Proceed { reachable: false }
    } else {
        WaitStep::Sleep
    }
}

// ---------------------------------------------------------------------------
// a bounded disconnect
// ---------------------------------------------------------------------------

/// How long a disconnect waits for the tunnel's teardown, in seconds.
pub const DISCONNECT_TIMEOUT_SECS: u64 = 5;

/// What a disconnect does while it waits for the teardown.
#[derive(Debug, Clone, Copy, PartialEq, Eq)]
pub enum DisconnectStep {
    /// The teardown finished: the tunnel reported itself disconnected.
    Done,
    /// Keep waiting for the teardown.
    Wait,
    /// The teardown hangs: publish Disconnected anyway and leave the
    /// connection thread behind.
    ForceDisconnected,
}

/// After `waited` seconds of a disconnect, whether the teardown `finished`:
/// a finished teardown ends the wait; after [`DISCONNECT_TIMEOUT_SECS`] the
/// state is forced to Disconnected, so a hung logout never blocks a stop.
pub fn disconnect_step(finished: bool, waited: u64) -> (r: DisconnectStep)
    ensures
        r == if finished {
            DisconnectStep::Done
        } else if waited >= DISCONNECT_TIMEOUT_SECS {
            DisconnectStep::ForceDisconnected
        } else {
            DisconnectStep::Wait
        },
{
    if finished {
        DisconnectStep::Done
    } else if waited >= DISCONNECT_TIMEOUT_SECS {
        DisconnectStep::ForceDisconnected
    } else {
        DisconnectStep::Wait
    }
}

// ---------------------------------------------------------------------------
// the gateway host
// ---------------------------------------------------------------------------

/// The text before the first `c`.
pub open spec fn before_char(s: Seq<char>, c: char) -> Seq<char> {
    match find_char(s, c) {
        Some(i) => s.take(i),
        None => s,
    }
}

/// The bare host of a gateway server value: every leading `https://`, then
/// every leading `http://`, removed, and the text from the first `/`, then
/// from the first `:`, cut off.
pub open spec fn host_of_spec(server: Seq<char>) -> Seq<char> {
    before_char(
        before_char(strip_all_prefix(strip_all_prefix(server, "https://"@), "http://"@), '/'),
        ':',
    )
}

fn before_char_vec(s: &[char], c: char) -> (r: Vec<char>)
    ensures
        r@ == before_char(s@, c),
{
    proof {
        crate::text::lemma_find_char_spec(s@, c);
    }
    match find_char_vec(s, c) {
        Some(i) => {
            let r = slice(s, 0, i);
            assert(r@ =~= s@.take(i as int));
            r
        },
        None => slice(s, 0, s.len()),
    }
}

/// The bare host of a gateway server value, for a reachability probe.
pub fn host_of(server: &str) -> (r: String)
    ensures
        r@ == host_of_spec(server@),
{
    let s = chars_of(server);
    let a = strip_all_prefix_vec(&s, &lit("https://"));
    let b = strip_all_prefix_vec(&a, &lit("http://"));
    let c = before_char_vec(&b, '/');
    let d = before_char_vec(&c, ':');
    string_of(&d)
}

// ---------------------------------------------------------------------------
// the gateway's physical route
// ---------------------------------------------------------------------------

/// The gateway host route captured at connect time, re-applied on resume.
#[derive(Debug, Clone)]
pub struct GatewayRoute {
    gw_ip: String,
    nexthop: Option<String>,
    dev: String,
}

/// The token after the first `key` that has one after it.
pub open spec fn after_key(t: Seq<Seq<char>>, key: Seq<char>, i: int) -> Option<Seq<char>>
    decreases t.len() - i,
{
    if i < 0 || i + 1 >= t.len() {
        None
    } else if t[i] == key {
        Some(t[i + 1])
    } else {
        after_key(t, key, i + 1)
    }
}

/// A device of a VPN tunnel.
pub open spec fn tunnel_dev(d: Seq<char>) -> bool {
    starts_with(d, "tun"@) || starts_with(d, "gpd"@) || starts_with(d, "vpn"@)
}

/// The route in the output of `ip route get <gw>`, when it goes over a
/// physical device: `(next hop, device)`.
pub open spec fn physical_route(out: Seq<char>) -> Option<(Option<Seq<char>>, Seq<char>)> {
    let t = words(out);
    match after_key(t, "dev"@, 0) {
        Some(dev) => if tunnel_dev(dev) {
            None
        } else {
            Some((after_key(t, "via"@, 0), dev))
        },
        None => None,
    }
}

fn after_key_vec(t: &Vec<Vec<char>>, key: &str) -> (r: Option<Vec<char>>)
    ensures
        match r {
            Some(a) => after_key(views(t@), key@, 0) == Some(a@),
            None => after_key(views(t@), key@, 0) is None,
        },
{
    let ghost tv = views(t@);
    let mut i: usize = 0;
    while i < t.len() && i + 1 < t.len()
        invariant
            tv == views(t@),
            after_key(tv, key@, 0) == after_key(tv, key@, i as int),
        decreases t.len() - i,
    {
        assert(tv[i as int] == t@[i as int]@);
        if eq_str(&t[i], key) {
            let a = slice(&t[i + 1], 0, t[i + 1].len());
            assert(a@ =~= tv[i + 1]);
            return Some(a);
        }
        i = i + 1;
    }
    None
}

pub open spec fn opt_chars(o: Option<String>) -> Option<Seq<char>> {
    match o {
        Some(s) => Some(s@),
        None => None,
    }
}

impl GatewayRoute {
    pub closed spec fn gw_ip_view(&self) -> Seq<char> {
        self.gw_ip@
    }

    pub closed spec fn nexthop_view(&self) -> Option<Seq<char>> {
        opt_chars(self.nexthop)
    }

    pub closed spec fn dev_view(&self) -> Seq<char> {
        self.dev@
    }

    /// The route to `gw_ip` from the output of `ip route get <gw_ip>`, only
    /// if it goes over a physical interface (not a tunnel).
    pub fn capture(gw_ip: &str, route_output: &str) -> (r: Option<Self>)
        ensures
            match r {
                Some(g) => g.gw_ip_view() == gw_ip@ && physical_route(route_output@) == Some(
                    (g.nexthop_view(), g.dev_view()),
                ),
                None => physical_route(route_output@) is None,
            },
    {
        let out = chars_of(route_output);
        let t = words_vec(&out);
        proof {
            reveal_strlit("tun");
            reveal_strlit("gpd");
            reveal_strlit("vpn");
        }
        let dev = match after_key_vec(&t, "dev") {
            Some(d) => d,
            None => {
                return None;
            },
        };
        if has_prefix_str(&dev, "tun") || has_prefix_str(&dev, "gpd") || has_prefix_str(
            &dev,
            "vpn",
        ) {
            return None;
        }
        let nexthop = match after_key_vec(&t, "via") {
            Some(v) => Some(string_of(&v)),
            None => None,
        };
        Some(GatewayRoute { gw_ip: gw_ip.to_owned(), nexthop, dev: string_of(&dev) })
    }

    /// The arguments of `ip` that re-assert the route (idempotently, with
    /// `route replace`): through the next hop when there is one.
    pub fn reassert(&self) -> (r: Vec<String>)
        ensures
            r@.map_values(|s: String| s@) == match self.nexthop_view() {
                Some(nh) => seq![
                    "route"@,
                    "replace"@,
                    self.gw_ip_view(),
                    "via"@,
                    nh,
                    "dev"@,
                    self.dev_view(),
                ],
                None => seq!["route"@, "replace"@, self.gw_ip_view(), "dev"@, self.dev_view()],
            },
    {
        let mut v: Vec<String> = Vec::new();
        v.push("route".to_owned());
        v.push("replace".to_owned());
        v.push(self.gw_ip.clone());
        match &self.nexthop {
            Some(nh) => {
                v.push("via".to_owned());
                v.push(nh.clone());
            },
            None => {},
        }
        v.push("dev".to_owned());
        v.push(self.dev.clone());
        proof {
            assert(v@.map_values(|s: String| s@) =~= match self.nexthop_view() {
                Some(nh) => seq![
                    "route"@,
                    "replace"@,
                    self.gw_ip_view(),
                    "via"@,
                    nh,
                    "dev"@,
                    self.dev_view(),
                ],
                None => seq!["route"@, "replace"@, self.gw_ip_view(), "dev"@, self.dev_view()],
            });
        }
        v
    }
}

// ---------------------------------------------------------------------------
// the controlling GUI
// ---------------------------------------------------------------------------

/// The unique bus name of the GUI that owns the tunnel (the last caller of
/// Connect).
#[derive(Debug)]
pub struct Controller {
    pub owner: Option<String>,
}

impl Controller {
    /// A Connect call from `sender` (when the bus reports one) makes it the
    /// owner.
    pub fn on_connect(&mut self, sender: Option<String>)
        ensures
            match sender {
                Some(s) => final(self).owner == Some(s),
                None => final(self).owner == old(self).owner,
            },
    {
        match sender {
            Some(s) => {
                self.owner = Some(s);
            },
            None => {},
        }
    }

    /// An explicit Disconnect stops watching the owner.
    pub fn on_disconnect(&mut self)
        ensures
            final(self).owner is None,
    {
        self.owner = None;
    }

    /// A bus name changed owner: when the controlling GUI's name was released
    /// (it has no new owner), the tunnel is disconnected and the owner
    /// forgotten; returns whether that happened.
    pub fn on_name_released(&mut self, name: &str, has_new_owner: bool) -> (r: bool)
        ensures
            r == (!has_new_owner && old(self).owner is Some && old(self).owner->0@ == name@),
            r ==> final(self).owner is None,
            !r ==> final(self).owner == old(self).owner,
    {
        if has_new_owner {
            return false;
        }
        let is_owner = match &self.owner {
            Some(o) => {
                let n = name.to_owned();
                *o == n
            },
            None => false,
        };
        if is_owner {
            self.owner = None;
        }
        is_owner
    }

    /// After the grace period following a controller loss: shut down unless
    /// a GUI has claimed the tunnel again.
    pub fn should_shut_down(&self) -> (r: bool)
        ensures
            r == self.owner is None,
    {
        self.owner.is_none()
    }
}

// ---------------------------------------------------------------------------
// the SSO callback handler
// ---------------------------------------------------------------------------

/// Why the SSO callback handler refuses to run.
#[derive(Debug, PartialEq, Eq)]
pub enum LaunchGuiError {
    /// It talks to a per-user callback port, so it cannot run as root.
    Root,
    /// There is no callback data: it handles a callback, it does not start a
    /// session.
    NoAuthData,
}

/// Whether the callback handler runs for `user` with `auth_data`.
pub fn check_launch_gui(user: &str, auth_data: Option<&str>) -> (r: Result<(), LaunchGuiError>)
    ensures
        user@ == "root"@ ==> r == Err::<(), LaunchGuiError>(LaunchGuiError::Root),
        user@ != "root"@ ==> (r is Ok <==> match auth_data {
            Some(d) => d@.len() > 0,
            None => false,
        }),
        r is Err && user@ != "root"@ ==> r == Err::<(), LaunchGuiError>(LaunchGuiError::NoAuthData),
{
    let u = chars_of(user);
    if eq_str(&u, "root") {
        return Err(LaunchGuiError::Root);
    }
    match auth_data {
        Some(d) => {
            if d.is_empty() {
                Err(LaunchGuiError::NoAuthData)
            } else {
                Ok(())
            }
        },
        None => Err(LaunchGuiError::NoAuthData),
    }
}

// ---------------------------------------------------------------------------
// idle shutdown of a GUI-launched service
// ---------------------------------------------------------------------------

/// The connected GUI clients, for shutting a GUI-launched service down once
/// the last one has gone.
#[derive(Debug)]
pub struct ClientCount {
    /// Live clients (an atomic counter: it wraps).
    pub active: usize,
    /// The service was launched by a GUI and exits when it is idle.
    pub exit_on_idle: bool,
}

impl ClientCount {
    pub fn new(exit_on_idle: bool) -> (r: Self)
        ensures
            r.active == 0,
            r.exit_on_idle == exit_on_idle,
    {
        ClientCount { active: 0, exit_on_idle }
    }

    /// A client connected.
    pub fn on_connect(&mut self)
        ensures
            final(self).active == if old(self).active == usize::MAX {
                0
            } else {
                (old(self).active + 1) as usize
            },
            final(self).exit_on_idle == old(self).exit_on_idle,
    {
        self.active = self.active.wrapping_add(1);
    }

    /// A client disconnected; returns whether to check, after a grace
    /// period, that the service has become idle (it was the last client of a
    /// GUI-launched service).
    pub fn on_disconnect(&mut self) -> (r: bool)
        ensures
            final(self).active == if old(self).active == 0 {
                usize::MAX
            } else {
                (old(self).active - 1) as usize
            },
            final(self).exit_on_idle == old(self).exit_on_idle,
            r == (old(self).exit_on_idle && old(self).active <= 1),
    {
        let remaining = self.active.saturating_sub(1);
        self.active = self.active.wrapping_sub(1);
        self.exit_on_idle && remaining == 0
    }

    /// After the grace period: shut down only if no client came back.
    pub fn idle(&self) -> (r: bool)
        ensures
            r == (self.active == 0),
    {
        self.active == 0
    }
}

} // verus!
