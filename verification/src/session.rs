//! VPN session metadata: what the tunnel reports about the session's lifetime,
//! and the human-readable forms of a duration and of an expiry countdown.

use vstd::prelude::*;
use crate::text::{dec, dec_vec, extend, lit, string_of};

verus! {

/// The gateway's warning ahead of the session's end.
#[derive(Debug, Clone)]
pub struct SessionWarning {
    /// How many seconds before the end the warning is shown.
    pub prior_secs: u64,
    pub message: String,
}

/// Session metadata the service reports for a connected tunnel.
#[derive(Debug)]
pub struct SessionInfo {
    /// Session lifetime granted by the gateway, in seconds.
    pub lifetime_secs: Option<u64>,
    /// Absolute expiry (Unix epoch seconds) when the gateway reports one.
    pub user_expires: Option<u64>,
    /// The lifetime in words, e.g. `12h` or `1h 30m`.
    pub expires_in_human: Option<String>,
    pub lifetime_warning: Option<SessionWarning>,
    /// Whether the session may be extended (portal-initiated connections).
    pub allow_extend_session: bool,
}

/// A duration in words: `{h}h {m}m` (`{h}h` on the hour), else `{m}m`, else
/// `{s}s`.
pub open spec fn duration_text(secs: nat) -> Seq<char> {
    let h = secs / 3600;
    let m = (secs % 3600) / 60;
    let s = secs % 60;
    if h > 0 {
        if m > 0 {
            dec(h) + seq!['h', ' '] + dec(m) + seq!['m']
        } else {
            dec(h) + seq!['h']
        }
    } else if m > 0 {
        dec(m) + seq!['m']
    } else {
        dec(s) + seq!['s']
    }
}

/// Write a duration in words.
pub fn humanize_duration(secs: u64) -> (r: String)
    ensures
        r@ == duration_text(secs as nat),
{
    let h = secs / 3600;
    let m = (secs % 3600) / 60;
    let s = secs % 60;
    let mut v: Vec<char>;
    if h > 0 {
        v = dec_vec(h);
        v.push('h');
        if m > 0 {
            v.push(' ');
            let mv = dec_vec(m);
            extend(&mut v, &mv);
            v.push('m');
        }
    } else if m > 0 {
        v = dec_vec(m);
        v.push('m');
    } else {
        v = dec_vec(s);
        v.push('s');
    }
    proof {
        assert(v@ =~= duration_text(secs as nat));
    }
    string_of(&v)
}

pub open spec fn opt_text(o: Option<String>) -> Option<Seq<char>> {
    match o {
        Some(s) => Some(s@),
        None => None,
    }
}

impl SessionInfo {
    /// The session metadata of a tunnel: the lifetime with its words, the
    /// absolute expiry and the warning as the tunnel reports them, and
    /// whether extending the session is allowed.
    pub fn from_vpn_session_fields(
        lifetime_secs: Option<u64>,
        user_expires: Option<u64>,
        lifetime_warning: Option<SessionWarning>,
        allow_extend_session: bool,
    ) -> (r: SessionInfo)
        ensures
            r.lifetime_secs == lifetime_secs,
            r.user_expires == user_expires,
            r.lifetime_warning == lifetime_warning,
            r.allow_extend_session == allow_extend_session,
            opt_text(r.expires_in_human) == match lifetime_secs {
                Some(l) => Some(duration_text(l as nat)),
                None => None,
            },
    {
        let expires_in_human = match lifetime_secs {
            Some(l) => Some(humanize_duration(l)),
            None => None,
        };
        SessionInfo {
            lifetime_secs,
            user_expires,
            expires_in_human,
            lifetime_warning,
            allow_extend_session,
        }
    }
}

/// Seconds since the Unix epoch now (`SystemTime::now()`, 0 before the
/// epoch). Nothing is claimed of the value: it is the machine's clock.
#[verifier::external_body]
pub fn unix_now() -> u64 {
    std::time::SystemTime::now().duration_since(std::time::UNIX_EPOCH).map(|d| d.as_secs()).unwrap_or(
        0,
    )
}

/// The expiry countdown at time `now`: `expired`, or `expires in` followed
/// by `{h}h {m}m`, `{m}m {s}s` or `{s}s`.
pub open spec fn expiry_text(expires_at: nat, now: nat) -> Seq<char> {
    if expires_at <= now {
        seq!['e', 'x', 'p', 'i', 'r', 'e', 'd']
    } else {
        let secs = (expires_at - now) as nat;
        let h = secs / 3600;
        let m = (secs % 3600) / 60;
        let s = secs % 60;
        seq!['e', 'x', 'p', 'i', 'r', 'e', 's', ' ', 'i', 'n', ' '] + if h > 0 {
            dec(h) + seq!['h', ' '] + dec(m) + seq!['m']
        } else if m > 0 {
            dec(m) + seq!['m', ' '] + dec(s) + seq!['s']
        } else {
            dec(s) + seq!['s']
        }
    }
}

/// The expiry countdown for `expires_at` at time `now`.
pub fn humanize_expiry_at(expires_at: u64, now: u64) -> (r: String)
    ensures
        r@ == expiry_text(expires_at as nat, now as nat),
{
    if expires_at <= now {
        let v = lit("expired");
        proof {
            reveal_strlit("expired");
        }
        return string_of(&v);
    }
    let secs = expires_at - now;
    let h = secs / 3600;
    let m = (secs % 3600) / 60;
    let s = secs % 60;
    let mut v = lit("expires in ");
    proof {
        reveal_strlit("expires in ");
    }
    if h > 0 {
        let hv = dec_vec(h);
        extend(&mut v, &hv);
        v.push('h');
        v.push(' ');
        let mv = dec_vec(m);
        extend(&mut v, &mv);
        v.push('m');
    } else if m > 0 {
        let mv = dec_vec(m);
        extend(&mut v, &mv);
        v.push('m');
        v.push(' ');
        let sv = dec_vec(s);
        extend(&mut v, &sv);
        v.push('s');
    } else {
        let sv = dec_vec(s);
        extend(&mut v, &sv);
        v.push('s');
    }
    proof {
        assert(v@ =~= expiry_text(expires_at as nat, now as nat));
    }
    string_of(&v)
}

/// The expiry countdown for `expires_at` now: for whatever the clock reads,
/// the countdown at that time.
pub fn humanize_expiry(expires_at: u64) -> (r: String)
    ensures
        exists|now: u64| r@ == expiry_text(expires_at as nat, now as nat),
{
    let now = unix_now();
    humanize_expiry_at(expires_at, now)
}

} // verus!
