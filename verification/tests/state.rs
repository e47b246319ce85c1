use globalprotect::state::{
    conn_details_at, tunnel_addr_in, ConnDetails, ConnectedFields, Shared, Status, VpnEvent,
};
use globalprotect::tray::{build_state, concept_for, disconnect_enabled, icon_art, menu_status_label, rgba_to_argb, status_kind, to_icon, IconArt, TrayConcept};

fn shared_at(status: Status, gen: u64) -> Shared {
    Shared { status, log: "working…".to_string(), current_gen: gen, conn: ConnDetails::default() }
}

#[test]
fn status_labels() {
    assert_eq!(Status::Disconnected.label(), "Disconnected");
    assert_eq!(Status::Connecting.label(), "Connecting…");
    assert_eq!(Status::Connected.label(), "Connected");
    assert_eq!(Status::Disconnecting.label(), "Disconnecting…");
    assert_eq!(Status::Error("boom".into()).label(), "Error: boom");
    assert!(Status::Connecting.is_active());
    assert!(Status::Connected.is_active());
    assert!(Status::Disconnecting.is_active());
    assert!(!Status::Disconnected.is_active());
    assert!(!Status::Error("x".into()).is_active());
}

#[test]
fn stale_generation_changes_nothing() {
    let mut s = shared_at(Status::Connecting, 5);
    assert!(s.apply_status(4, Status::Connected).is_none());
    assert_eq!(s.status, Status::Connecting);
    assert_eq!(s.log, "working…");
    assert!(!s.apply_conn(4, ConnDetails { portal: "p".into(), ..ConnDetails::default() }));
    assert_eq!(s.conn.portal, "");
}

#[test]
fn connect_notifications() {
    let mut s = shared_at(Status::Connecting, 1);
    let n = s.apply_status(1, Status::Connected).unwrap();
    assert_eq!(n.summary, "GlobalProtect connected");
    assert_eq!(n.body, "Connected to GlobalProtect");
    assert_eq!(s.log, "");
    // Already connected: no second notification.
    assert!(s.apply_status(1, Status::Connected).is_none());

    let mut s = shared_at(Status::Connecting, 1);
    s.conn.portal = "vpn.example.com".into();
    assert_eq!(s.apply_status(1, Status::Connected).unwrap().body, "Connected to vpn.example.com");
}

#[test]
fn disconnect_and_error_notifications() {
    let mut s = shared_at(Status::Connected, 2);
    let n = s.apply_status(2, Status::Disconnected).unwrap();
    assert_eq!((n.summary.as_str(), n.body.as_str()), ("GlobalProtect disconnected", "The VPN connection has ended"));
    // Disconnected again: nothing to say.
    assert!(s.apply_status(2, Status::Disconnected).is_none());

    let mut s = shared_at(Status::Connecting, 2);
    let n = s.apply_status(2, Status::Error("auth failed".into())).unwrap();
    assert_eq!((n.summary.as_str(), n.body.as_str()), ("GlobalProtect error", "auth failed"));
    assert_eq!(s.log, "working…");
    let mut s = shared_at(Status::Disconnected, 2);
    assert!(s.apply_status(2, Status::Error("x".into())).is_none());
}

#[test]
fn generations_and_events() {
    let mut s = Shared::default();
    let (g, n) = s.start_generation(Status::Connecting);
    assert_eq!(g, 1);
    assert!(n.is_none());
    let d = ConnDetails { portal: "vpn".into(), expires_at: Some(99), ..ConnDetails::default() };
    let fx = s.on_vpn_event(g, VpnEvent::Connected(d));
    assert!(fx.scan_tunnel);
    assert_eq!(fx.session_timer, Some(99));
    assert_eq!(fx.notification.unwrap().body, "Connected to vpn");
    assert_eq!(s.status, Status::Connected);
    assert_eq!(s.conn.portal, "vpn");

    // A new connect bumps the generation: the old stream is ignored.
    let (g2, _) = s.start_generation(Status::Connecting);
    assert_eq!(g2, 2);
    let fx = s.on_vpn_event(g, VpnEvent::Closed);
    assert!(fx.notification.is_none());
    assert_eq!(s.status, Status::Connecting);
    assert_eq!(s.conn.portal, "vpn");

    let fx = s.on_vpn_event(g2, VpnEvent::Closed);
    assert!(fx.notification.is_some());
    assert_eq!(s.status, Status::Disconnected);
    assert_eq!(s.conn.portal, "");
}

#[test]
fn countdown_and_tunnel_updates() {
    let mut s = shared_at(Status::Connected, 3);
    assert!(s.tick_expiry(3, 1000 + 125, 1000));
    assert_eq!(s.conn.expires, "expires in 2m 5s");
    assert!(!s.tick_expiry(2, 1000, 1000));
    assert!(s.apply_tunnel(3, "tun0".into(), "10.0.0.2".into()));
    assert_eq!((s.conn.iface.as_str(), s.conn.ip.as_str()), ("tun0", "10.0.0.2"));
    let mut s = shared_at(Status::Connecting, 3);
    assert!(!s.tick_expiry(3, 2000, 1000));
    assert!(!s.apply_tunnel(3, "tun0".into(), "x".into()));
}

#[test]
fn connection_details_from_the_payload() {
    let f = ConnectedFields {
        portal: Some("portal.example.com".into()),
        gateway_name: Some("GW-EU".into()),
        gateway_address: Some("gw.example.com".into()),
        user_expires: Some(500),
        lifetime_secs: Some(3600),
        expires_in_human: Some("1h".into()),
        tun_iface: Some("tun0".into()),
        ipv4: None,
        ipv6: Some("fd00::2".into()),
    };
    let d = conn_details_at(f, 1000);
    assert_eq!(d.portal, "portal.example.com");
    assert_eq!(d.gateway, "GW-EU (gw.example.com)");
    assert_eq!(d.expires_at, Some(4600));
    assert_eq!(d.expires, "expires in 1h 0m");
    assert_eq!(d.ip, "fd00::2");
    assert_eq!(d.iface, "tun0");

    let f = ConnectedFields {
        gateway_name: Some("gw".into()),
        gateway_address: Some("gw".into()),
        expires_in_human: Some("12h".into()),
        ipv4: Some("10.1.2.3".into()),
        ipv6: Some("fd00::2".into()),
        ..ConnectedFields::default()
    };
    let d = conn_details_at(f, 1000);
    assert_eq!(d.gateway, "gw");
    assert_eq!(d.expires_at, None);
    assert_eq!(d.expires, "12h");
    assert_eq!(d.ip, "10.1.2.3");
    assert_eq!(d.portal, "");

    let f = ConnectedFields { user_expires: Some(1500), lifetime_secs: Some(u64::MAX), ..ConnectedFields::default() };
    assert_eq!(conn_details_at(f, 1000).expires_at, Some(1500));
}

#[test]
fn tunnel_interface_lookup() {
    let out = "1: lo    inet 127.0.0.1/8 scope host lo\\       valid_lft forever\n12: tun0    inet 10.1.2.3/32 scope global tun0\n";
    assert_eq!(tunnel_addr_in(out), Some(("tun0".to_string(), "10.1.2.3".to_string())));
    assert_eq!(tunnel_addr_in("3: vpn0 inet 172.16.0.9 peer\n"), Some(("vpn0".to_string(), "172.16.0.9".to_string())));
    assert_eq!(tunnel_addr_in("2: eth0 inet 192.168.1.2/24\n"), None);
    // A line of fewer than two words ends the lookup.
    assert_eq!(tunnel_addr_in("x\n12: tun0 inet 10.0.0.1/32\n"), None);
    assert_eq!(tunnel_addr_in("12: tun0 mtu 1400 inet\n13: gpd0 inet 10.9.9.9/32\n"), Some(("gpd0".to_string(), "10.9.9.9".to_string())));
}

#[test]
fn tray_icons_and_menu() {
    assert_eq!(concept_for("ring"), TrayConcept::Ring);
    assert_eq!(concept_for("shield"), TrayConcept::Shield);
    assert_eq!(concept_for("Ring"), TrayConcept::Shield);
    assert_eq!(icon_art(&Status::Connected, true, 5, 12), IconArt::Connected);
    assert_eq!(icon_art(&Status::Error("x".into()), true, 5, 12), IconArt::Disconnected);
    assert_eq!(icon_art(&Status::Connecting, true, 25, 12), IconArt::ConnectingFrame(1));
    assert_eq!(icon_art(&Status::Disconnecting, false, 25, 12), IconArt::ConnectingFrame(0));
    assert_eq!(menu_status_label(&Status::Connected), "Status: Connected");
    assert_eq!(menu_status_label(&Status::Error("a very long gateway error".into())), "Status: Error");
    assert!(disconnect_enabled(&Status::Connecting));
    assert!(!disconnect_enabled(&Status::Disconnected));
    assert_eq!(status_kind(&Status::Disconnected), 0);
    assert_eq!(status_kind(&Status::Disconnecting), 1);
    assert_eq!(status_kind(&Status::Connected), 2);
    assert_eq!(status_kind(&Status::Error("e".into())), 3);
    let mut s = shared_at(Status::Connecting, 1);
    s.conn.gateway = "gw".into();
    let p = build_state(&s);
    assert_eq!(p.status, "Connecting…");
    assert_eq!(p.kind, 1);
    assert!(p.active && p.busy);
    assert_eq!(p.gateway, "gw");
    assert_eq!(p.log, "working…");
}

#[test]
fn rgba_pixels_become_argb() {
    assert_eq!(rgba_to_argb(&[1, 2, 3, 4, 5, 6, 7, 8, 9]), vec![4, 1, 2, 3, 8, 5, 6, 7]);
    assert!(rgba_to_argb(&[]).is_empty());
}

fn png(color: png::ColorType, pixels: &[u8], w: u32, h: u32) -> Vec<u8> {
    let mut out = Vec::new();
    {
        let mut enc = png::Encoder::new(&mut out, w, h);
        enc.set_color(color);
        enc.set_depth(png::BitDepth::Eight);
        let mut writer = enc.write_header().unwrap();
        writer.write_image_data(pixels).unwrap();
    }
    out
}

#[test]
fn png_icons() {
    let bytes = png(png::ColorType::Rgba, &[10, 20, 30, 255, 1, 2, 3, 4], 2, 1);
    let icon = to_icon(&bytes).unwrap();
    assert_eq!((icon.width, icon.height), (2, 1));
    assert_eq!(icon.data, vec![255, 10, 20, 30, 4, 1, 2, 3]);
    let rgb = png(png::ColorType::Rgb, &[10, 20, 30], 1, 1);
    assert!(to_icon(&rgb).is_none());
    assert!(to_icon(b"not a png").is_none());
}

#[test]
fn tunnel_state_labels() {
    assert_eq!(globalprotect::state::VpnEvent::Connecting.label(), "Connecting…");
    assert_eq!(globalprotect::state::VpnEvent::Closed.label(), "Disconnected");
}
