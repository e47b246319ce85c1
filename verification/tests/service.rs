use globalprotect::service::{
    check_launch_gui, connect_step, disconnect_step, TaskState, host_of, DisconnectStep, network_wait_step, WaitStep, may_connect, may_reconnect, resume_next, ClientCount, Controller, GatewayRoute,
    LaunchGuiError, ResumeAction, TunnelAction, TunnelEvent, TunnelLoop, VpnPhase, MAX_RECONNECT_ATTEMPTS,
};

#[test]
fn connect_and_reconnect_gates() {
    assert!(may_connect(VpnPhase::Disconnected));
    assert!(!may_connect(VpnPhase::Connected));
    assert!(!may_connect(VpnPhase::Reconnecting));
    assert!(may_connect(VpnPhase::GatewaySelect));
    assert!(!may_reconnect(VpnPhase::GatewaySelect));
    assert!(may_reconnect(VpnPhase::Connected));
    assert!(!may_reconnect(VpnPhase::Connecting));
}

#[test]
fn a_dead_tunnel_is_rebuilt_a_bounded_number_of_times() {
    let mut t = TunnelLoop::new();
    let mut waits = 0;
    loop {
        match t.step(TunnelEvent::MainloopExited { user_disconnect: false }, true) {
            TunnelAction::Stop => break,
            TunnelAction::WaitForNetwork { announce } => {
                assert!(announce);
                waits += 1;
                assert_eq!(t.step(TunnelEvent::NetworkWaited { user_disconnect: false }, true), TunnelAction::Rebuild);
                assert_eq!(t.step(TunnelEvent::Rebuilt { ok: true }, true), TunnelAction::RunMainloop);
            }
            other => panic!("unexpected {other:?}"),
        }
    }
    assert_eq!(waits, MAX_RECONNECT_ATTEMPTS);
}

#[test]
fn user_disconnect_and_rebuild_failure_stop_the_tunnel() {
    let mut t = TunnelLoop::new();
    assert_eq!(t.step(TunnelEvent::MainloopExited { user_disconnect: true }, true), TunnelAction::Stop);
    assert_eq!(t.attempt, 0);
    assert_eq!(
        t.step(TunnelEvent::MainloopExited { user_disconnect: false }, false),
        TunnelAction::WaitForNetwork { announce: false }
    );
    assert_eq!(t.step(TunnelEvent::NetworkWaited { user_disconnect: true }, false), TunnelAction::Stop);
    assert_eq!(t.step(TunnelEvent::Rebuilt { ok: false }, false), TunnelAction::Stop);
}

#[test]
fn resume_repin_retries() {
    assert_eq!(resume_next(1, true), ResumeAction::Reconnect { pinned: true });
    assert_eq!(resume_next(1, false), ResumeAction::RetryAfterSleep);
    assert_eq!(resume_next(9, false), ResumeAction::RetryAfterSleep);
    assert_eq!(resume_next(10, false), ResumeAction::Reconnect { pinned: false });
}

#[test]
fn bare_gateway_host() {
    assert_eq!(host_of("https://gw.example.com:443/global-protect"), "gw.example.com");
    assert_eq!(host_of("http://gw.example.com/x"), "gw.example.com");
    assert_eq!(host_of("gw.example.com"), "gw.example.com");
    assert_eq!(host_of("https://https://h:1"), "h");
    assert_eq!(host_of("10.0.0.1:8443"), "10.0.0.1");
}

#[test]
fn gateway_route_capture_and_reassert() {
    let r = GatewayRoute::capture("103.56.172.6", "103.56.172.6 via 10.0.0.254 dev enp6s0 src 10.0.0.50 uid 0\n    cache\n").unwrap();
    assert_eq!(r.reassert(), vec!["route", "replace", "103.56.172.6", "via", "10.0.0.254", "dev", "enp6s0"]);
    let r = GatewayRoute::capture("103.56.172.6", "103.56.172.6 dev enp6s0 src 10.0.0.50 uid 0").unwrap();
    assert_eq!(r.reassert(), vec!["route", "replace", "103.56.172.6", "dev", "enp6s0"]);
    assert!(GatewayRoute::capture("1.2.3.4", "1.2.3.4 dev tun0 src 10.1.1.1").is_none());
    assert!(GatewayRoute::capture("1.2.3.4", "1.2.3.4 via 10.0.0.1 dev gpd0").is_none());
    assert!(GatewayRoute::capture("1.2.3.4", "unreachable").is_none());
    assert!(GatewayRoute::capture("1.2.3.4", "1.2.3.4 via 10.0.0.1 dev").is_none());
}

#[test]
fn controlling_gui() {
    let mut c = Controller { owner: None };
    c.on_connect(Some(":1.42".into()));
    c.on_connect(None);
    assert_eq!(c.owner.as_deref(), Some(":1.42"));
    assert!(!c.on_name_released(":1.42", true));
    assert!(!c.on_name_released(":1.7", false));
    assert!(c.on_name_released(":1.42", false));
    assert!(c.owner.is_none());
    assert!(c.should_shut_down());
    c.on_connect(Some(":1.50".into()));
    assert!(!c.should_shut_down());
    c.on_disconnect();
    assert!(c.owner.is_none());
}

#[test]
fn sso_callback_checks() {
    assert_eq!(check_launch_gui("root", Some("globalprotectcallback:x")), Err(LaunchGuiError::Root));
    assert_eq!(check_launch_gui("alice", None), Err(LaunchGuiError::NoAuthData));
    assert_eq!(check_launch_gui("alice", Some("")), Err(LaunchGuiError::NoAuthData));
    assert_eq!(check_launch_gui("alice", Some("globalprotectcallback:abc")), Ok(()));
}

#[test]
fn idle_shutdown_after_the_last_client() {
    let mut c = ClientCount::new(true);
    c.on_connect();
    c.on_connect();
    assert!(!c.on_disconnect());
    assert!(c.on_disconnect());
    assert!(c.idle());
    c.on_connect();
    assert!(!c.idle());
    let mut c = ClientCount::new(false);
    c.on_connect();
    assert!(!c.on_disconnect());
}

#[test]
fn waiting_for_the_network() {
    assert_eq!(network_wait_step(true, 5, 10), WaitStep::Proceed { reachable: true });
    assert_eq!(network_wait_step(false, 10, 10), WaitStep::Proceed { reachable: false });
    assert_eq!(network_wait_step(false, 3, 10), WaitStep::Sleep);
}

#[test]
fn a_hung_disconnect_is_forced_after_the_timeout() {
    assert_eq!(disconnect_step(true, 0), DisconnectStep::Done);
    assert_eq!(disconnect_step(false, 4), DisconnectStep::Wait);
    assert_eq!(disconnect_step(false, 5), DisconnectStep::ForceDisconnected);
}

#[test]
fn a_connect_is_taken_while_disconnected_or_at_the_gateway_picker() {
    let mut st = TaskState { phase: VpnPhase::GatewaySelect, user_disconnect: true, last_request: None };
    assert!(connect_step(&mut st, "req-1", true));
    assert_eq!(st.phase, VpnPhase::Connecting);
    assert!(!st.user_disconnect);
    assert_eq!(st.last_request, Some("req-1"));
    assert!(!connect_step(&mut st, "req-2", true));
    assert_eq!(st.last_request, Some("req-1"));
    let mut st = TaskState { phase: VpnPhase::Disconnected, user_disconnect: false, last_request: None };
    assert!(connect_step(&mut st, "req-3", false));
    assert_eq!(st.phase, VpnPhase::Disconnected);
    assert_eq!(st.last_request, Some("req-3"));
}
