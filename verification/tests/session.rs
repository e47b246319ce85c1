use globalprotect::session::{humanize_duration, humanize_expiry_at, SessionInfo, SessionWarning};

#[test]
fn maps_openconnect_session_metadata_to_service_session_info() {
    let info = SessionInfo::from_vpn_session_fields(
        Some(43_200),
        None,
        Some(SessionWarning {
            prior_secs: 1_800,
            message: "Session expires soon".to_string(),
        }),
        true,
    );

    assert_eq!(info.lifetime_secs, Some(43_200));
    assert_eq!(info.expires_in_human.as_deref(), Some("12h"));
    assert_eq!(info.lifetime_warning.unwrap().prior_secs, 1_800);
    assert!(info.allow_extend_session);
}

#[test]
fn direct_request_session_metadata_keeps_extension_disabled() {
    let info = SessionInfo::from_vpn_session_fields(
        Some(43_200),
        None,
        Some(SessionWarning {
            prior_secs: 1_800,
            message: "Session expires soon".to_string(),
        }),
        false,
    );

    assert_eq!(info.lifetime_secs, Some(43_200));
    assert!(!info.allow_extend_session);
}

#[test]
fn session_without_lifetime_has_no_words() {
    let info = SessionInfo::from_vpn_session_fields(None, Some(1_700_000_000), None, false);
    assert_eq!(info.expires_in_human, None);
    assert_eq!(info.user_expires, Some(1_700_000_000));
    assert!(info.lifetime_warning.is_none());
}

#[test]
fn duration_words() {
    assert_eq!(humanize_duration(43_200), "12h");
    assert_eq!(humanize_duration(5_400), "1h 30m");
    assert_eq!(humanize_duration(1_800), "30m");
    assert_eq!(humanize_duration(59), "59s");
    assert_eq!(humanize_duration(0), "0s");
    assert_eq!(humanize_duration(3_661), "1h 1m");
}

#[test]
fn expiry_countdown_words() {
    assert_eq!(humanize_expiry_at(100, 100), "expired");
    assert_eq!(humanize_expiry_at(50, 100), "expired");
    assert_eq!(humanize_expiry_at(100 + 11 * 3600 + 59 * 60 + 7, 100), "expires in 11h 59m");
    assert_eq!(humanize_expiry_at(100 + 4 * 60 + 12, 100), "expires in 4m 12s");
    assert_eq!(humanize_expiry_at(105, 100), "expires in 5s");
    assert_eq!(humanize_expiry_at(100 + 3600, 100), "expires in 1h 0m");
}
