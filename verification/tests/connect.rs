use globalprotect::config::{gpservice_binary, Config, SettingsForm};
use globalprotect::connect::{
    auth_params_for, connect_params, credential_source, os_version_for, probe_credentials, probe_result,
    connect_request, request_options, AuthParams, ConnOpts, ConnectError, ConnectParams, CredentialSource, PreloginKind,
    PreloginOutcome, ProbeForm, StartError,
};
use globalprotect::protocol::ClientOs;
use globalprotect::vault::{Identity, Vault};

fn params(kind: i32) -> ConnectParams {
    ConnectParams {
        url: "gw.example.com".into(),
        as_gateway: true,
        os: "Linux".into(),
        user_agent: "PAN GlobalProtect".into(),
        pkcs11_module: "/usr/lib64/opensc-pkcs11.so".into(),
        cert_kind: kind,
        use_browser: false,
        cert_uri: "pkcs11:manufacturer=piv_II;id=%03;type=cert".into(),
        pin: "123456".into(),
        cert_file: "/home/u/c.pem".into(),
        key_file: String::new(),
        key_password: "pw".into(),
        username: "alice".into(),
        password: String::new(),
        opts: ConnOpts::default(),
    }
}

#[test]
fn smart_card_certificate_carries_the_pin() {
    let (a, module) = auth_params_for(&params(1)).unwrap();
    assert_eq!(a.certificate, "pkcs11:manufacturer=piv_II;id=%03;type=cert?pin-value=123456");
    assert_eq!(a.sslkey, None);
    assert_eq!(a.key_password, None);
    assert_eq!(module.as_deref(), Some("/usr/lib64/opensc-pkcs11.so"));
    assert_eq!(a.username.as_deref(), Some("alice"));
    assert_eq!(a.password, None);
    let mut p = params(1);
    p.pin = String::new();
    p.pkcs11_module = String::new();
    let (a, module) = auth_params_for(&p).unwrap();
    assert_eq!(a.certificate, "pkcs11:manufacturer=piv_II;id=%03;type=cert");
    assert_eq!(module, None);
}

#[test]
fn certificate_file_and_none() {
    let (a, module) = auth_params_for(&params(2)).unwrap();
    assert_eq!(a.certificate, "/home/u/c.pem");
    assert_eq!(a.sslkey, None);
    assert_eq!(a.key_password.as_deref(), Some("pw"));
    assert_eq!(module, None);
    let (a, _) = auth_params_for(&params(0)).unwrap();
    assert_eq!(a.certificate, "");
    assert_eq!(a.key_password, None);
}

#[test]
fn connect_errors() {
    let mut p = params(1);
    p.as_gateway = false;
    assert_eq!(auth_params_for(&p).unwrap_err(), ConnectError::GatewayOnly);
    let mut p = params(1);
    p.cert_uri = String::new();
    assert_eq!(auth_params_for(&p).unwrap_err(), ConnectError::NoSmartCard);
    let mut p = params(2);
    p.cert_file = String::new();
    assert_eq!(auth_params_for(&p).unwrap_err(), ConnectError::NoCertFile);
    assert_eq!(ConnectError::NoSmartCard.message(), "Select a smart-card certificate");
    assert_eq!(ConnectError::NoCertFile.message(), "Select a certificate file");
}

#[test]
fn probe_certificates() {
    let f = ProbeForm {
        portal: " vpn ".into(),
        cert_kind: 1,
        cert_uri: String::new(),
        pin: "1".into(),
        cert_file: "c.p12".into(),
        key_file: "k.pem".into(),
        key_password: String::new(),
        pkcs11_module: "libx.so".into(),
    };
    let (c, k, p, m) = probe_credentials(&f);
    assert_eq!(c.as_deref(), Some("?pin-value=1"));
    assert_eq!((k, p), (None, None));
    assert_eq!(m.as_deref(), Some("libx.so"));
    let f = ProbeForm { cert_kind: 2, ..f };
    let (c, k, p, m) = probe_credentials(&f);
    assert_eq!(c.as_deref(), Some("c.p12"));
    assert_eq!(k.as_deref(), Some("k.pem"));
    assert_eq!(p, None);
    assert_eq!(m, None);
    let f = ProbeForm { cert_kind: 7, ..f };
    assert_eq!(probe_credentials(&f), (None, None, None, None));
}

#[test]
fn probe_results() {
    let r = probe_result(PreloginOutcome::Saml { supports_browser: true });
    assert_eq!(r.kind, "saml");
    assert!(r.supports_browser);
    let r = probe_result(PreloginOutcome::Standard { username_label: "User".into(), password_label: "Pass".into() });
    assert_eq!((r.kind.as_str(), r.username_label.as_str(), r.password_label.as_str()), ("standard", "User", "Pass"));
    let r = probe_result(PreloginOutcome::Failed { message: "TLS: peer requires a Client CERTIFICATE".into() });
    assert_eq!(r.kind, "cert");
    assert_eq!(r.message, "TLS: peer requires a Client CERTIFICATE");
    let r = probe_result(PreloginOutcome::Failed { message: "connection refused".into() });
    assert_eq!(r.kind, "error");
    assert!(!r.supports_browser);
}

#[test]
fn credentials_and_os_version() {
    let some = Some("x".to_string());
    assert_eq!(credential_source(&some, &some, PreloginKind::Standard), Ok(CredentialSource::Password));
    assert_eq!(credential_source(&some, &None, PreloginKind::Saml), Ok(CredentialSource::Saml));
    assert_eq!(credential_source(&None, &None, PreloginKind::Standard), Err(ConnectError::NeedsPassword));
    let mut o = ConnOpts::default();
    assert_eq!(os_version_for(&o, "Linux Fedora 40".into()), "Linux Fedora 40");
    o.os_version = "Microsoft Windows 11 Pro".into();
    assert_eq!(os_version_for(&o, "Linux".into()), "Microsoft Windows 11 Pro");
}

#[test]
fn connect_request_options() {
    let a = AuthParams {
        server: "gw.example.com".into(),
        os: "Windows".into(),
        user_agent: "UA".into(),
        certificate: String::new(),
        sslkey: Some("k.pem".into()),
        key_password: None,
        username: None,
        password: None,
        use_browser: true,
        opts: ConnOpts { mtu: 1300, reconnect_timeout: 0, vpnc_script: "/etc/vpnc".into(), ..ConnOpts::default() },
    };
    let r = request_options(&a, "Microsoft Windows 10".into());
    assert_eq!(r.gateway.display(), "gw.example.com (gw.example.com)");
    assert_eq!(r.certificate, None);
    assert_eq!(r.sslkey.as_deref(), Some("k.pem"));
    assert_eq!(r.os, ClientOs::Windows);
    assert_eq!(r.os_version, "Microsoft Windows 10");
    assert_eq!(r.mtu, 1300);
    assert_eq!(r.reconnect_timeout, None);
    assert_eq!(r.vpnc_script.as_deref(), Some("/etc/vpnc"));
    assert_eq!(r.local_hostname, None);
    assert_eq!(r.client_version, None);
}

fn vault_with(ids: Vec<Identity>) -> Vault {
    let mut v = Vault::load("identities.enc".into(), None);
    v.set_master_pin("1").unwrap();
    v.set_identities(ids);
    v
}

#[test]
fn connecting_a_saved_identity() {
    let id = Identity {
        name: "work".into(),
        portal: "portal.example.com".into(),
        auth_method: 0,
        as_gateway: true,
        cert_id: "03".into(),
        cert_manufacturer: "piv_II".into(),
        pin: "9999".into(),
        ..Default::default()
    };
    let v = vault_with(vec![id]);
    let mut cfg = Config::default();
    cfg.auth_view = "browser".into();
    cfg.mtu = 1400;
    let p = connect_params(&v, &cfg, "work", "  ").unwrap();
    assert_eq!(p.url, "portal.example.com");
    assert_eq!(p.cert_kind, 1);
    assert_eq!(p.cert_uri, "pkcs11:manufacturer=piv_II;id=%03;type=cert");
    assert_eq!(p.pin, "9999");
    assert!(p.use_browser);
    assert_eq!(p.opts.mtu, 1400);
    assert_eq!(p.os, "Windows");
    let p = connect_params(&v, &cfg, "work", " other.example.com ").unwrap();
    assert_eq!(p.url, "other.example.com");
    assert_eq!(connect_params(&v, &cfg, "home", "").unwrap_err(), StartError::NoIdentity);
}

#[test]
fn identity_auth_methods_map_to_certificate_kinds() {
    let mk = |m: i32| Identity { name: format!("n{m}"), auth_method: m, ..Default::default() };
    let cfg = Config::default();
    let v = vault_with(vec![mk(0), mk(1), mk(2), mk(3)]);
    for (m, k) in [(0, 1), (1, 2), (2, 0), (3, 0)] {
        let p = connect_params(&v, &cfg, &format!("n{m}"), "").unwrap();
        assert_eq!(p.cert_kind, k);
        assert_eq!(p.cert_uri, "");
        assert!(!p.use_browser);
    }
}

#[test]
fn locked_vault_cannot_connect() {
    let v = Vault::load("identities.enc".into(), None);
    assert_eq!(connect_params(&v, &Config::default(), "work", "").unwrap_err(), StartError::Locked);
}

#[test]
fn default_config() {
    let c = Config::default();
    assert!(c.as_gateway);
    assert_eq!(c.os, "Windows");
    assert_eq!(c.user_agent, "PAN GlobalProtect");
    assert_eq!(c.pkcs11_module, "/usr/lib64/opensc-pkcs11.so");
    assert_eq!(c.auth_view, "webview");
    assert_eq!(c.tray_icon, "shield");
    assert!(c.run_at_startup && !c.start_minimized && !c.remember_unlock);
    assert_eq!(gpservice_binary(None), "/usr/bin/gpservice");
    assert_eq!(gpservice_binary(Some("")), "/usr/bin/gpservice");
    assert_eq!(gpservice_binary(Some("/tmp/gpservice")), "/tmp/gpservice");
}

#[test]
fn certificate_needed_messages() {
    assert!(globalprotect::connect::needs_certificate("Client Certificate required"));
    assert!(!globalprotect::connect::needs_certificate("timeout"));
}

#[test]
fn settings_window_updates_the_options() {
    let mut c = Config::default();
    c.remember_unlock = true;
    c.url = "portal".into();
    let form = SettingsForm {
        os: "Linux".into(),
        user_agent: "UA".into(),
        auth_view: "browser".into(),
        mtu: 1200,
        reconnect_timeout: 30,
        force_dpd: 10,
        disable_ipv6: true,
        no_dtls: true,
        no_xmlpost: false,
        ignore_tls_errors: false,
        vpnc_script: String::new(),
        local_hostname: "host".into(),
        os_version: String::new(),
        client_version: "6.2".into(),
        tray_icon: "ring".into(),
        run_at_startup: false,
        start_minimized: true,
        remember_unlock: false,
    };
    assert!(c.apply_settings(form.clone()));
    assert_eq!(c.os, "Linux");
    assert_eq!(c.mtu, 1200);
    assert_eq!(c.tray_icon, "ring");
    assert_eq!(c.url, "portal");
    assert!(!c.remember_unlock);
    assert!(!c.apply_settings(form));
}

#[test]
fn the_connect_request_targets_the_server_as_its_only_gateway() {
    let a = AuthParams {
        server: "gw.example.com".into(),
        os: "Linux".into(),
        user_agent: "UA".into(),
        certificate: "pkcs11:id=%03?pin-value=1234".into(),
        sslkey: None,
        key_password: None,
        username: None,
        password: None,
        use_browser: false,
        opts: ConnOpts { reconnect_timeout: 30, ..ConnOpts::default() },
    };
    let r = connect_request(&a, "authcookie=abc".into(), "Linux 6.1".into());
    assert_eq!(r.info.portal, "gw.example.com");
    assert_eq!(r.info.gateway.address, "gw.example.com");
    assert_eq!(r.info.gateways.len(), 1);
    assert_eq!(r.info.gateways[0].name, "gw.example.com");
    assert_eq!(r.cookie, "authcookie=abc");
    assert_eq!(r.options.certificate.as_deref(), Some("pkcs11:id=%03?pin-value=1234"));
    assert_eq!(r.options.os_version, "Linux 6.1");
    assert_eq!(r.options.reconnect_timeout, Some(30));
}
