//! Persisted GUI options. There is intentionally no PIN field, so the PIN is
//! never written to disk.

use vstd::prelude::*;

verus! {

/// Default PKCS#11 module for the smart-card picker.
pub const DEFAULT_MODULE: &'static str = "/usr/lib64/opensc-pkcs11.so";

/// Installed location of the backend.
pub const INSTALLED_GPSERVICE: &'static str = "/usr/bin/gpservice";

/// The GUI's options.
#[derive(Debug, Clone)]
pub struct Config {
    pub url: String,
    pub as_gateway: bool,
    pub os: String,
    pub user_agent: String,
    pub pkcs11_module: String,
    /// Remembered selection (the PKCS#11 hex id, e.g. `03`).
    pub last_cert_id: String,
    pub last_cert_manufacturer: String,
    /// 0 = PKCS#11 smart card, 1 = certificate file.
    pub auth_method: i32,
    /// SSO method: `webview` (embedded) or `browser` (system browser).
    pub auth_view: String,
    /// Remembered cert-file paths (the key password is never persisted).
    pub cert_file: String,
    pub key_file: String,
    pub mtu: u32,
    pub reconnect_timeout: u32,
    pub force_dpd: u32,
    pub disable_ipv6: bool,
    pub no_dtls: bool,
    pub no_xmlpost: bool,
    pub ignore_tls_errors: bool,
    pub vpnc_script: String,
    pub local_hostname: String,
    pub os_version: String,
    pub client_version: String,
    /// Tray icon concept: `shield` or `ring`.
    pub tray_icon: String,
    /// Launch the GUI at login.
    pub run_at_startup: bool,
    /// Start with the window hidden to the tray.
    pub start_minimized: bool,
    /// Remember the vault master PIN in the desktop secret store.
    pub remember_unlock: bool,
}

/// The defaults: gateway mode, Windows OS, the `PAN GlobalProtect` user
/// agent, the opensc module, the embedded SSO view, the shield tray icon,
/// launch at login; everything else empty, zero or off.
pub open spec fn is_default_config(c: Config) -> bool {
    &&& c.url@.len() == 0
    &&& c.as_gateway
    &&& c.os@ == "Windows"@
    &&& c.user_agent@ == "PAN GlobalProtect"@
    &&& c.pkcs11_module@ == DEFAULT_MODULE@
    &&& c.last_cert_id@.len() == 0
    &&& c.last_cert_manufacturer@.len() == 0
    &&& c.auth_method == 0
    &&& c.auth_view@ == "webview"@
    &&& c.cert_file@.len() == 0
    &&& c.key_file@.len() == 0
    &&& c.mtu == 0
    &&& c.reconnect_timeout == 0
    &&& c.force_dpd == 0
    &&& !c.disable_ipv6
    &&& !c.no_dtls
    &&& !c.no_xmlpost
    &&& !c.ignore_tls_errors
    &&& c.vpnc_script@.len() == 0
    &&& c.local_hostname@.len() == 0
    &&& c.os_version@.len() == 0
    &&& c.client_version@.len() == 0
    &&& c.tray_icon@ == "shield"@
    &&& c.run_at_startup
    &&& !c.start_minimized
    &&& !c.remember_unlock
}

impl Default for Config {
    fn default() -> (r: Self)
        ensures
            is_default_config(r),
    {
        Config {
            url: String::new(),
            as_gateway: true,
            os: "Windows".to_owned(),
            user_agent: "PAN GlobalProtect".to_owned(),
            pkcs11_module: DEFAULT_MODULE.to_owned(),
            last_cert_id: String::new(),
            last_cert_manufacturer: String::new(),
            auth_method: 0,
            auth_view: "webview".to_owned(),
            cert_file: String::new(),
            key_file: String::new(),
            mtu: 0,
            reconnect_timeout: 0,
            force_dpd: 0,
            disable_ipv6: false,
            no_dtls: false,
            no_xmlpost: false,
            ignore_tls_errors: false,
            vpnc_script: String::new(),
            local_hostname: String::new(),
            os_version: String::new(),
            client_version: String::new(),
            tray_icon: "shield".to_owned(),
            run_at_startup: true,
            start_minimized: false,
            remember_unlock: false,
        }
    }
}

/// The backend binary: the value of `GP_GPSERVICE_BIN` when set and
/// non-empty (a development build), else the installed path.
pub fn gpservice_binary(env: Option<&str>) -> (r: String)
    ensures
        r@ == match env {
            Some(p) => if p@.len() > 0 {
                p@
            } else {
                INSTALLED_GPSERVICE@
            },
            None => INSTALLED_GPSERVICE@,
        },
{
    match env {
        Some(p) => {
            if !p.is_empty() {
                return p.to_owned();
            }
        },
        None => {},
    }
    INSTALLED_GPSERVICE.to_owned()
}

/// The options edited in the settings window.
#[derive(Debug, Clone)]
pub struct SettingsForm {
    pub os: String,
    pub user_agent: String,
    pub auth_view: String,
    pub mtu: u32,
    pub reconnect_timeout: u32,
    pub force_dpd: u32,
    pub disable_ipv6: bool,
    pub no_dtls: bool,
    pub no_xmlpost: bool,
    pub ignore_tls_errors: bool,
    pub vpnc_script: String,
    pub local_hostname: String,
    pub os_version: String,
    pub client_version: String,
    pub tray_icon: String,
    pub run_at_startup: bool,
    pub start_minimized: bool,
    pub remember_unlock: bool,
}

impl Config {
    /// Take the settings window's options; returns whether the stored PIN
    /// must be cleared ("remember unlock" was turned off). The connection
    /// target, the certificate selection and the module are kept.
    pub fn apply_settings(&mut self, form: SettingsForm) -> (r: bool)
        ensures
            r == (old(self).remember_unlock && !form.remember_unlock),
            final(self).os == form.os,
            final(self).user_agent == form.user_agent,
            final(self).auth_view == form.auth_view,
            final(self).mtu == form.mtu,
            final(self).reconnect_timeout == form.reconnect_timeout,
            final(self).force_dpd == form.force_dpd,
            final(self).disable_ipv6 == form.disable_ipv6,
            final(self).no_dtls == form.no_dtls,
            final(self).no_xmlpost == form.no_xmlpost,
            final(self).ignore_tls_errors == form.ignore_tls_errors,
            final(self).vpnc_script == form.vpnc_script,
            final(self).local_hostname == form.local_hostname,
            final(self).os_version == form.os_version,
            final(self).client_version == form.client_version,
            final(self).tray_icon == form.tray_icon,
            final(self).run_at_startup == form.run_at_startup,
            final(self).start_minimized == form.start_minimized,
            final(self).remember_unlock == form.remember_unlock,
            final(self).url == old(self).url,
            final(self).as_gateway == old(self).as_gateway,
            final(self).pkcs11_module == old(self).pkcs11_module,
            final(self).last_cert_id == old(self).last_cert_id,
            final(self).last_cert_manufacturer == old(self).last_cert_manufacturer,
            final(self).auth_method == old(self).auth_method,
            final(self).cert_file == old(self).cert_file,
            final(self).key_file == old(self).key_file,
    {
        let remember_was = self.remember_unlock;
        self.os = form.os;
        self.user_agent = form.user_agent;
        self.auth_view = form.auth_view;
        self.mtu = form.mtu;
        self.reconnect_timeout = form.reconnect_timeout;
        self.force_dpd = form.force_dpd;
        self.disable_ipv6 = form.disable_ipv6;
        self.no_dtls = form.no_dtls;
        self.no_xmlpost = form.no_xmlpost;
        self.ignore_tls_errors = form.ignore_tls_errors;
        self.vpnc_script = form.vpnc_script;
        self.local_hostname = form.local_hostname;
        self.os_version = form.os_version;
        self.client_version = form.client_version;
        self.tray_icon = form.tray_icon;
        self.run_at_startup = form.run_at_startup;
        self.start_minimized = form.start_minimized;
        self.remember_unlock = form.remember_unlock;
        remember_was && !self.remember_unlock
    }
}

} // verus!
