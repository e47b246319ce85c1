//! The GUI's connect path, as decisions: the parameters of a connection taken
//! from a saved identity and the options, the client certificate and
//! credential they resolve to, what a prelogin probe tells the user, and the
//! options of the connect request handed to the service.

use vstd::prelude::*;
use crate::certs::{cert_uri_for, cert_uri_of};
use crate::config::Config;
use crate::protocol::{client_os_of, ClientOs, Gateway};
use crate::text::{chars_of, contains, contains_str, eq_str, extend, lit, string_of, trim, trim_vec};
use crate::vault::{lemma_index_of_name, lemma_index_of_name_at, lemma_index_of_name_none, lookup, Identity, Vault};

verus! {

/// Advanced connection/tunnel options (the settings window).
#[derive(Debug, Clone, Default)]
pub struct ConnOpts {
    pub mtu: u32,
    pub reconnect_timeout: u32,
    pub force_dpd: u32,
    pub disable_ipv6: bool,
    pub no_dtls: bool,
    pub no_xmlpost: bool,
    pub ignore_tls_errors: bool,
    /// Empty = unset.
    pub vpnc_script: String,
    pub local_hostname: String,
    pub os_version: String,
    pub client_version: String,
}

/// Parameters of a connection attempt, captured from the UI. The PIN lives
/// only here; it is never persisted.
#[derive(Debug)]
pub struct ConnectParams {
    pub url: String,
    pub as_gateway: bool,
    pub os: String,
    pub user_agent: String,
    pub pkcs11_module: String,
    /// Client certificate kind: 0 = none, 1 = PKCS#11 smart card, 2 = file.
    pub cert_kind: i32,
    /// SSO in the system browser instead of the embedded webview.
    pub use_browser: bool,
    /// Certificate selector URI without PIN.
    pub cert_uri: String,
    pub pin: String,
    pub cert_file: String,
    pub key_file: String,
    pub key_password: String,
    pub username: String,
    pub password: String,
    pub opts: ConnOpts,
}

/// What the UI asks the connection manager to do.
#[derive(Debug)]
pub enum UiCommand {
    Connect(ConnectParams),
    Disconnect,
}

/// Inputs to authentication.
#[derive(Debug)]
pub struct AuthParams {
    /// Server to authenticate against (treated as the gateway).
    pub server: String,
    pub os: String,
    pub user_agent: String,
    /// Client certificate: a `pkcs11:` URI including `?pin-value=…`, or the
    /// path of a certificate file; empty for none.
    pub certificate: String,
    pub sslkey: Option<String>,
    pub key_password: Option<String>,
    pub username: Option<String>,
    pub password: Option<String>,
    pub use_browser: bool,
    pub opts: ConnOpts,
}

/// Why a connection cannot start.
#[derive(Debug, PartialEq, Eq)]
pub enum ConnectError {
    /// Only connecting directly to a gateway is supported.
    GatewayOnly,
    /// The smart-card method was chosen without a certificate.
    NoSmartCard,
    /// The certificate-file method was chosen without a file.
    NoCertFile,
    /// The server asks for a username and password, and none was given.
    NeedsPassword,
    /// The gateway asks for an MFA prompt.
    MfaUnsupported,
}

/// The text shown for each reason a connection cannot start.
pub open spec fn connect_error_text(e: ConnectError) -> Seq<char> {
    match e {
        ConnectError::GatewayOnly => "Only 'connect directly as gateway' is supported in this build"@,
        ConnectError::NoSmartCard => "Select a smart-card certificate"@,
        ConnectError::NoCertFile => "Select a certificate file"@,
        ConnectError::NeedsPassword => "This server needs a username and password — choose the \"Username & password\" method"@,
        ConnectError::MfaUnsupported => "This gateway requires an MFA prompt, which the GUI doesn't support yet"@,
    }
}

impl ConnectError {
    pub fn message(&self) -> (r: &'static str)
        ensures
            r@ == connect_error_text(*self),
    {
        match self {
            ConnectError::GatewayOnly => "Only 'connect directly as gateway' is supported in this build",
            ConnectError::NoSmartCard => "Select a smart-card certificate",
            ConnectError::NoCertFile => "Select a certificate file",
            ConnectError::NeedsPassword => "This server needs a username and password — choose the \"Username & password\" method",
            ConnectError::MfaUnsupported => "This gateway requires an MFA prompt, which the GUI doesn't support yet",
        }
    }
}

pub open spec fn nonempty(s: Seq<char>) -> Option<Seq<char>> {
    if s.len() > 0 {
        Some(s)
    } else {
        None
    }
}

pub open spec fn opt_view(o: Option<String>) -> Option<Seq<char>> {
    match o {
        Some(s) => Some(s@),
        None => None,
    }
}

fn opt_nonempty(s: &String) -> (r: Option<String>)
    ensures
        opt_view(r) == nonempty(s@),
{
    if s.unicode_len() > 0 {
        Some(s.clone())
    } else {
        None
    }
}

/// A certificate URI with the PIN appended as `?pin-value=`, when there is
/// one.
pub open spec fn with_pin(uri: Seq<char>, pin: Seq<char>) -> Seq<char> {
    if pin.len() == 0 {
        uri
    } else {
        uri + "?pin-value="@ + pin
    }
}

fn with_pin_exec(uri: &str, pin: &str) -> (r: String)
    ensures
        r@ == with_pin(uri@, pin@),
{
    if pin.is_empty() {
        uri.to_owned()
    } else {
        let mut v = chars_of(uri);
        extend(&mut v, &lit("?pin-value="));
        extend(&mut v, &chars_of(pin));
        string_of(&v)
    }
}

pub fn clone_opts(o: &ConnOpts) -> (r: ConnOpts)
    ensures
        r == *o,
{
    ConnOpts {
        mtu: o.mtu,
        reconnect_timeout: o.reconnect_timeout,
        force_dpd: o.force_dpd,
        disable_ipv6: o.disable_ipv6,
        no_dtls: o.no_dtls,
        no_xmlpost: o.no_xmlpost,
        ignore_tls_errors: o.ignore_tls_errors,
        vpnc_script: o.vpnc_script.clone(),
        local_hostname: o.local_hostname.clone(),
        os_version: o.os_version.clone(),
        client_version: o.client_version.clone(),
    }
}

/// The authentication inputs of a connection attempt, and the PKCS#11 module
/// to export as `GP_PKCS11_MODULE` for it.
pub open spec fn auth_matches(a: AuthParams, module: Option<Seq<char>>, p: ConnectParams) -> bool {
    &&& a.server == p.url
    &&& a.os == p.os
    &&& a.user_agent == p.user_agent
    &&& a.use_browser == p.use_browser
    &&& a.opts == p.opts
    &&& opt_view(a.username) == nonempty(p.username@)
    &&& opt_view(a.password) == nonempty(p.password@)
    &&& if p.cert_kind == 1 {
        &&& a.certificate@ == with_pin(p.cert_uri@, p.pin@)
        &&& a.sslkey is None && a.key_password is None
        &&& module == nonempty(p.pkcs11_module@)
    } else if p.cert_kind == 2 {
        &&& a.certificate@ == p.cert_file@
        &&& opt_view(a.sslkey) == nonempty(p.key_file@)
        &&& opt_view(a.key_password) == nonempty(p.key_password@)
        &&& module is None
    } else {
        &&& a.certificate@.len() == 0
        &&& a.sslkey is None && a.key_password is None
        &&& module is None
    }
}

/// Resolve a connection attempt into its authentication inputs: the client
/// certificate (a smart-card URI with the PIN, a certificate file with its
/// key and password, or none) independently of the credential (a username
/// and password when both are given, else single sign-on).
pub fn auth_params_for(p: &ConnectParams) -> (r: Result<(AuthParams, Option<String>), ConnectError>)
    ensures
        match r {
            Ok((a, m)) => p.as_gateway && !(p.cert_kind == 1 && p.cert_uri@.len() == 0) && !(
            p.cert_kind == 2 && p.cert_file@.len() == 0) && auth_matches(a, opt_view(m), *p),
            Err(e) => {
                &&& !p.as_gateway ==> e == ConnectError::GatewayOnly
                &&& p.as_gateway && p.cert_kind == 1 ==> e == ConnectError::NoSmartCard
                    && p.cert_uri@.len() == 0
                &&& p.as_gateway && p.cert_kind == 2 ==> e == ConnectError::NoCertFile
                    && p.cert_file@.len() == 0
                &&& p.as_gateway ==> p.cert_kind == 1 || p.cert_kind == 2
            },
        },
{
    if !p.as_gateway {
        return Err(ConnectError::GatewayOnly);
    }
    let (certificate, sslkey, key_password, module) = if p.cert_kind == 1 {
        if p.cert_uri.unicode_len() == 0 {
            return Err(ConnectError::NoSmartCard);
        }
        let module = opt_nonempty(&p.pkcs11_module);
        (with_pin_exec(p.cert_uri.as_str(), p.pin.as_str()), None, None, module)
    } else if p.cert_kind == 2 {
        if p.cert_file.unicode_len() == 0 {
            return Err(ConnectError::NoCertFile);
        }
        (p.cert_file.clone(), opt_nonempty(&p.key_file), opt_nonempty(&p.key_password), None)
    } else {
        (String::new(), None, None, None)
    };
    let a = AuthParams {
        server: p.url.clone(),
        os: p.os.clone(),
        user_agent: p.user_agent.clone(),
        certificate,
        sslkey,
        key_password,
        username: opt_nonempty(&p.username),
        password: opt_nonempty(&p.password),
        use_browser: p.use_browser,
        opts: clone_opts(&p.opts),
    };
    Ok((a, module))
}

/// The auto-detect probe's form.
#[derive(Debug)]
pub struct ProbeForm {
    pub portal: String,
    pub cert_kind: i32,
    pub cert_uri: String,
    pub pin: String,
    pub cert_file: String,
    pub key_file: String,
    pub key_password: String,
    pub pkcs11_module: String,
}

/// The client certificate a probe presents: `(certificate, key file, key
/// password, module to export)`.
pub fn probe_credentials(f: &ProbeForm) -> (r: (
    Option<String>,
    Option<String>,
    Option<String>,
    Option<String>,
))
    ensures
        if f.cert_kind == 1 {
            opt_view(r.0) == Some(with_pin(f.cert_uri@, f.pin@)) && r.1 is None && r.2 is None
                && opt_view(r.3) == nonempty(f.pkcs11_module@)
        } else if f.cert_kind == 2 {
            opt_view(r.0) == Some(f.cert_file@) && opt_view(r.1) == nonempty(f.key_file@)
                && opt_view(r.2) == nonempty(f.key_password@) && r.3 is None
        } else {
            r.0 is None && r.1 is None && r.2 is None && r.3 is None
        },
{
    if f.cert_kind == 1 {
        (
            Some(with_pin_exec(f.cert_uri.as_str(), f.pin.as_str())),
            None,
            None,
            opt_nonempty(&f.pkcs11_module),
        )
    } else if f.cert_kind == 2 {
        (
            Some(f.cert_file.clone()),
            opt_nonempty(&f.key_file),
            opt_nonempty(&f.key_password),
            None,
        )
    } else {
        (None, None, None, None)
    }
}

// ---------------------------------------------------------------------------
// starting a connection from a saved identity
// ---------------------------------------------------------------------------

/// Why a saved identity cannot be connected.
#[derive(Debug, PartialEq, Eq)]
pub enum StartError {
    /// The vault is locked.
    Locked,
    /// No identity has this name.
    NoIdentity,
}

/// The certificate kind of an identity's auth method: a smart card (0) uses
/// PKCS#11, a certificate file (1) a file, anything else none.
pub open spec fn cert_kind_of(auth_method: i32) -> i32 {
    if auth_method == 0 {
        1
    } else if auth_method == 1 {
        2
    } else {
        0
    }
}

/// The options of a connection taken from the settings.
pub open spec fn opts_of(c: Config) -> ConnOpts {
    ConnOpts {
        mtu: c.mtu,
        reconnect_timeout: c.reconnect_timeout,
        force_dpd: c.force_dpd,
        disable_ipv6: c.disable_ipv6,
        no_dtls: c.no_dtls,
        no_xmlpost: c.no_xmlpost,
        ignore_tls_errors: c.ignore_tls_errors,
        vpnc_script: c.vpnc_script,
        local_hostname: c.local_hostname,
        os_version: c.os_version,
        client_version: c.client_version,
    }
}

/// The connection parameters for identity `id` with the settings `c`, the
/// portal override `portal` (used when not blank, trimmed).
pub open spec fn params_match(p: ConnectParams, id: Identity, c: Config, portal: Seq<char>) -> bool {
    &&& p.url@ == if trim(portal).len() == 0 {
        id.portal@
    } else {
        trim(portal)
    }
    &&& p.as_gateway == id.as_gateway
    &&& p.os == c.os
    &&& p.user_agent == c.user_agent
    &&& p.use_browser == (c.auth_view@ == "browser"@)
    &&& p.opts == opts_of(c)
    &&& p.pkcs11_module == id.pkcs11_module
    &&& p.cert_kind == cert_kind_of(id.auth_method)
    &&& p.cert_uri@ == if id.cert_id@.len() == 0 {
        Seq::empty()
    } else {
        cert_uri_of(id.cert_manufacturer@, id.cert_id@)
    }
    &&& p.pin == id.pin
    &&& p.cert_file == id.cert_file
    &&& p.key_file == id.key_file
    &&& p.key_password == id.key_password
    &&& p.username == id.username
    &&& p.password == id.password
}

/// Index of the first identity named `name`.
fn find_identity(ids: &[Identity], name: &str) -> (r: Option<usize>)
    ensures
        match r {
            Some(k) => k < ids@.len() && crate::vault::index_of_name(ids@, name@) == Some(k as int),
            None => crate::vault::index_of_name(ids@, name@) is None,
        },
{
    let target = name.to_owned();
    let mut i: usize = 0;
    while i < ids.len()
        invariant
            i <= ids@.len(),
            target@ == name@,
            forall|j: int| 0 <= j < i ==> ids@[j].name@ != name@,
        decreases ids.len() - i,
    {
        if ids[i].name == target {
            proof {
                lemma_index_of_name_at(ids@, name@, i as int);
            }
            return Some(i);
        }
        i = i + 1;
    }
    proof {
        lemma_index_of_name_none(ids@, name@);
    }
    None
}

/// The connection parameters for the saved identity named `identity`.
pub fn connect_params(vault: &Vault, cfg: &Config, identity: &str, portal: &str) -> (r: Result<
    ConnectParams,
    StartError,
>)
    ensures
        match r {
            Ok(p) => vault.is_unlocked() && lookup(vault.ids(), identity@) is Some && params_match(
                p,
                lookup(vault.ids(), identity@)->0,
                *cfg,
                portal@,
            ),
            Err(e) => (!vault.is_unlocked() && e == StartError::Locked) || (vault.is_unlocked()
                && lookup(vault.ids(), identity@) is None && e == StartError::NoIdentity),
        },
{
    if !vault.is_open() {
        return Err(StartError::Locked);
    }
    let ids = vault.identities();
    let k = match find_identity(ids, identity) {
        Some(k) => k,
        None => {
            return Err(StartError::NoIdentity);
        },
    };
    let id = &ids[k];
    let t = trim_vec(&chars_of(portal));
    let url = if t.len() == 0 {
        id.portal.clone()
    } else {
        string_of(&t)
    };
    let cert_kind: i32 = if id.auth_method == 0 {
        1
    } else if id.auth_method == 1 {
        2
    } else {
        0
    };
    let cert_uri = if id.cert_id.unicode_len() == 0 {
        String::new()
    } else {
        cert_uri_for(id.cert_manufacturer.as_str(), id.cert_id.as_str())
    };
    let browser = chars_of(cfg.auth_view.as_str());
    let opts = ConnOpts {
        mtu: cfg.mtu,
        reconnect_timeout: cfg.reconnect_timeout,
        force_dpd: cfg.force_dpd,
        disable_ipv6: cfg.disable_ipv6,
        no_dtls: cfg.no_dtls,
        no_xmlpost: cfg.no_xmlpost,
        ignore_tls_errors: cfg.ignore_tls_errors,
        vpnc_script: cfg.vpnc_script.clone(),
        local_hostname: cfg.local_hostname.clone(),
        os_version: cfg.os_version.clone(),
        client_version: cfg.client_version.clone(),
    };
    Ok(
        ConnectParams {
            url,
            as_gateway: id.as_gateway,
            os: cfg.os.clone(),
            user_agent: cfg.user_agent.clone(),
            pkcs11_module: id.pkcs11_module.clone(),
            cert_kind,
            use_browser: eq_str(&browser, "browser"),
            cert_uri,
            pin: id.pin.clone(),
            cert_file: id.cert_file.clone(),
            key_file: id.key_file.clone(),
            key_password: id.key_password.clone(),
            username: id.username.clone(),
            password: id.password.clone(),
            opts,
        },
    )
}

// ---------------------------------------------------------------------------
// probing the portal
// ---------------------------------------------------------------------------

/// What the portal's prelogin answered.
#[derive(Debug)]
pub enum PreloginOutcome {
    /// Single sign-on; whether it may run in the default browser.
    Saml { supports_browser: bool },
    /// Username and password, with the portal's field labels.
    Standard { username_label: String, password_label: String },
    /// The prelogin failed with this message.
    Failed { message: String },
}

/// What the prelogin asks for, for the UI.
#[derive(Debug, Clone)]
pub struct ProbeResult {
    /// `saml`, `standard`, `cert` (a client certificate is required) or
    /// `error`.
    pub kind: String,
    pub supports_browser: bool,
    pub username_label: String,
    pub password_label: String,
    pub message: String,
}

/// What `str::to_lowercase` makes of a text (Unicode lowercase mapping).
pub uninterp spec fn lowercase(s: Seq<char>) -> Seq<char>;

/// `str::to_lowercase`. Claimed: the result is named by [`lowercase`].
#[verifier::external_body]
fn to_lowercase(s: &str) -> (r: String)
    ensures
        r@ == lowercase(s@),
{
    s.to_lowercase()
}

/// Whether a prelogin failure says a client certificate is needed: its
/// message mentions a certificate, in any case.
pub fn needs_certificate(message: &str) -> (r: bool)
    ensures
        r == contains(lowercase(message@), "certificate"@),
{
    let low = chars_of(to_lowercase(message).as_str());
    contains_str(&low, "certificate")
}

/// The probe result of a prelogin outcome: a failure whose message mentions
/// a certificate (in any case) is reported as `cert`.
pub open spec fn probe_matches(r: ProbeResult, o: PreloginOutcome) -> bool {
    match o {
        PreloginOutcome::Saml { supports_browser } => {
            &&& r.kind@ == "saml"@
            &&& r.supports_browser == supports_browser
            &&& r.username_label@.len() == 0 && r.password_label@.len() == 0
            &&& r.message@.len() == 0
        },
        PreloginOutcome::Standard { username_label, password_label } => {
            &&& r.kind@ == "standard"@
            &&& !r.supports_browser
            &&& r.username_label == username_label && r.password_label == password_label
            &&& r.message@.len() == 0
        },
        PreloginOutcome::Failed { message } => {
            &&& r.kind@ == if contains(lowercase(message@), "certificate"@) {
                "cert"@
            } else {
                "error"@
            }
            &&& !r.supports_browser
            &&& r.username_label@.len() == 0 && r.password_label@.len() == 0
            &&& r.message == message
        },
    }
}

/// What the UI is told of a prelogin outcome.
pub fn probe_result(o: PreloginOutcome) -> (r: ProbeResult)
    ensures
        probe_matches(r, o),
{
    match o {
        PreloginOutcome::Saml { supports_browser } => ProbeResult {
            kind: "saml".to_owned(),
            supports_browser,
            username_label: String::new(),
            password_label: String::new(),
            message: String::new(),
        },
        PreloginOutcome::Standard { username_label, password_label } => ProbeResult {
            kind: "standard".to_owned(),
            supports_browser: false,
            username_label,
            password_label,
            message: String::new(),
        },
        PreloginOutcome::Failed { message } => {
            let kind = if needs_certificate(message.as_str()) {
                "cert".to_owned()
            } else {
                "error".to_owned()
            };
            ProbeResult {
                kind,
                supports_browser: false,
                username_label: String::new(),
                password_label: String::new(),
                message,
            }
        },
    }
}

// ---------------------------------------------------------------------------
// the connect request
// ---------------------------------------------------------------------------

/// The kind of login the prelogin offers.
#[derive(Debug, Clone, Copy, PartialEq, Eq)]
pub enum PreloginKind {
    Saml,
    Standard,
}

/// How the credential is obtained.
#[derive(Debug, Clone, Copy, PartialEq, Eq)]
pub enum CredentialSource {
    /// The username and password given.
    Password,
    /// Single sign-on through the auth helper.
    Saml,
}

/// The credential: the given username and password when both are there,
/// else single sign-on when the server offers it; a server asking for a
/// password without one is an error.
pub fn credential_source(username: &Option<String>, password: &Option<String>, prelogin: PreloginKind) -> (r: Result<CredentialSource, ConnectError>)
    ensures
        r == if username is Some && password is Some {
            Ok::<CredentialSource, ConnectError>(CredentialSource::Password)
        } else if prelogin == PreloginKind::Saml {
            Ok(CredentialSource::Saml)
        } else {
            Err(ConnectError::NeedsPassword)
        },
{
    match (username, password) {
        (Some(_), Some(_)) => Ok(CredentialSource::Password),
        _ => match prelogin {
            PreloginKind::Saml => Ok(CredentialSource::Saml),
            PreloginKind::Standard => Err(ConnectError::NeedsPassword),
        },
    }
}

/// The OS version reported: the override from the options when set, else
/// the default for the OS.
pub fn os_version_for(o: &ConnOpts, default_version: String) -> (r: String)
    ensures
        r@ == if o.os_version@.len() == 0 {
            default_version@
        } else {
            o.os_version@
        },
{
    if o.os_version.unicode_len() == 0 {
        default_version
    } else {
        o.os_version.clone()
    }
}

/// The options of the connect request handed to the service.
#[derive(Debug)]
pub struct RequestOptions {
    /// The server, which in gateway mode is its only gateway.
    pub gateway: Gateway,
    pub certificate: Option<String>,
    pub sslkey: Option<String>,
    pub key_password: Option<String>,
    pub user_agent: String,
    pub os: ClientOs,
    pub os_version: String,
    /// The computer name sent at prelogin and to the tunnel.
    pub local_hostname: Option<String>,
    pub mtu: u32,
    pub disable_ipv6: bool,
    pub no_dtls: bool,
    pub no_xmlpost: bool,
    pub force_dpd: u32,
    pub reconnect_timeout: Option<u32>,
    pub vpnc_script: Option<String>,
    pub client_version: Option<String>,
}

/// The gateway of a direct-to-gateway connection: the server itself, with
/// priority 0 and no priority rules.
pub open spec fn server_gateway(g: Gateway, server: String) -> bool {
    &&& g.name == server && g.address == server
    &&& g.priority == 0 && g.priority_rules@.len() == 0
}

/// The options of the connect request for `p` with OS version `os_version`:
/// a certificate, local hostname, vpnc script and client version only when
/// given, a reconnect timeout only when positive.
pub open spec fn options_match(r: RequestOptions, p: AuthParams, os_version: String) -> bool {
    &&& server_gateway(r.gateway, p.server)
    &&& opt_view(r.certificate) == nonempty(p.certificate@)
    &&& r.sslkey == p.sslkey
    &&& r.key_password == p.key_password
    &&& r.user_agent == p.user_agent
    &&& r.os == client_os_of(p.os@)
    &&& r.os_version == os_version
    &&& opt_view(r.local_hostname) == nonempty(p.opts.local_hostname@)
    &&& r.mtu == p.opts.mtu
    &&& r.disable_ipv6 == p.opts.disable_ipv6
    &&& r.no_dtls == p.opts.no_dtls
    &&& r.no_xmlpost == p.opts.no_xmlpost
    &&& r.force_dpd == p.opts.force_dpd
    &&& r.reconnect_timeout == if p.opts.reconnect_timeout > 0 {
        Some(p.opts.reconnect_timeout)
    } else {
        None
    }
    &&& opt_view(r.vpnc_script) == nonempty(p.opts.vpnc_script@)
    &&& opt_view(r.client_version) == nonempty(p.opts.client_version@)
}

/// The connect request's options for `p` with OS version `os_version`.
pub fn request_options(p: &AuthParams, os_version: String) -> (r: RequestOptions)
    ensures
        options_match(r, *p, os_version),
{
    let o = &p.opts;
    RequestOptions {
        gateway: Gateway::new(p.server.clone(), p.server.clone()),
        certificate: opt_nonempty(&p.certificate),
        sslkey: p.sslkey.clone(),
        key_password: p.key_password.clone(),
        user_agent: p.user_agent.clone(),
        os: ClientOs::parse(p.os.as_str()),
        os_version,
        local_hostname: opt_nonempty(&o.local_hostname),
        mtu: o.mtu,
        disable_ipv6: o.disable_ipv6,
        no_dtls: o.no_dtls,
        no_xmlpost: o.no_xmlpost,
        force_dpd: o.force_dpd,
        reconnect_timeout: if o.reconnect_timeout > 0 {
            Some(o.reconnect_timeout)
        } else {
            None
        },
        vpnc_script: opt_nonempty(&o.vpnc_script),
        client_version: opt_nonempty(&o.client_version),
    }
}

/// Where the tunnel goes: the portal, the chosen gateway and the gateways
/// offered.
#[derive(Debug)]
pub struct ConnectInfo {
    pub portal: String,
    pub gateway: Gateway,
    pub gateways: Vec<Gateway>,
}

/// The request handed to the service to start the tunnel: where it goes,
/// the authentication cookie from the gateway login, and the options.
#[derive(Debug)]
pub struct ConnectRequest {
    pub info: ConnectInfo,
    pub cookie: String,
    pub options: RequestOptions,
}

/// The connect request of a direct-to-gateway sign-in for `p`: the server
/// is the portal and the one gateway offered and chosen; `cookie` is what
/// the gateway login returned.
pub fn connect_request(p: &AuthParams, cookie: String, os_version: String) -> (r: ConnectRequest)
    ensures
        r.info.portal == p.server,
        server_gateway(r.info.gateway, p.server),
        r.info.gateways@.len() == 1 && server_gateway(r.info.gateways@[0], p.server),
        r.cookie == cookie,
        options_match(r.options, *p, os_version),
{
    let gateway = Gateway::new(p.server.clone(), p.server.clone());
    let mut gateways: Vec<Gateway> = Vec::new();
    gateways.push(Gateway::new(p.server.clone(), p.server.clone()));
    let info = ConnectInfo { portal: p.server.clone(), gateway, gateways };
    let options = request_options(p, os_version);
    ConnectRequest { info, cookie, options }
}

} // verus!
