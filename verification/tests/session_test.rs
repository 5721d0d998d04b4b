use sync_core::{
    GuestAction, GuestContextRole, GuestErrorCode, GuestMode, GuestSession, ManifestPermissions,
    WidgetBounds,
};

fn test_permissions() -> ManifestPermissions {
    ManifestPermissions {
        allow_hosts: vec!["example.com".to_string(), "api.local".to_string()],
        allow_env: vec!["FOO".to_string(), "BAR".to_string()],
    }
}

fn test_session() -> GuestSession {
    GuestSession::new("guest-test.sync".to_string(), test_permissions())
}

#[test]
fn consumer_denies_write_payload() {
    let mut session = test_session();
    session.grant_write_payload().unwrap();

    let err = session
        .verify_permissions(&GuestAction::WritePayload)
        .expect_err("consumer should not write");

    assert!(matches!(err.code, GuestErrorCode::PermissionDenied));
}

#[test]
fn owner_allows_write_payload_when_granted() {
    let mut session = test_session();
    session.as_owner().unwrap();
    session.grant_write_payload().unwrap();

    session
        .verify_permissions(&GuestAction::WritePayload)
        .expect("owner should write when granted");
}

#[test]
fn allowlist_intersection_is_enforced() {
    let mut session = test_session();
    session.as_owner().unwrap();

    session.allow_env_var("FOO").unwrap();
    session.allow_env_var("BAZ").unwrap();
    session.allow_host("example.com").unwrap();
    session.allow_host("evil.com").unwrap();

    let context = session.get_context();

    assert_eq!(context.permissions.allowed_env, vec!["FOO".to_string()]);
    assert_eq!(
        context.permissions.allowed_hosts,
        vec!["example.com".to_string()]
    );
}

#[test]
fn widget_bounds_requires_positive_dimensions() {
    let mut session = test_session();
    let err = session
        .set_widget_bounds(WidgetBounds { x: 0, y: 0, width: 0, height: 10 })
        .expect_err("width 0 should be invalid");
    assert!(matches!(err.code, GuestErrorCode::InvalidRequest));

    let err = session
        .set_widget_bounds(WidgetBounds { x: 0, y: 0, width: 10, height: 0 })
        .expect_err("height 0 should be invalid");
    assert!(matches!(err.code, GuestErrorCode::InvalidRequest));

    session
        .set_widget_bounds(WidgetBounds { x: 0, y: 0, width: 800, height: 600 })
        .expect("positive bounds are accepted");
}

#[test]
fn consumer_denied_then_owner_granted() {
    let mut session = test_session();
    let err = session
        .verify_permissions(&GuestAction::WritePayload)
        .expect_err("consumer denied");
    assert!(matches!(err.code, GuestErrorCode::PermissionDenied));

    session.as_owner().unwrap();
    session.grant_write_payload().unwrap();
    session
        .verify_permissions(&GuestAction::WritePayload)
        .expect("owner with grant allowed");
}

#[test]
fn consumer_containment_covers_every_write_action() {
    let mut session = test_session();
    session.grant_write_payload().unwrap();
    session.grant_context_write().unwrap();
    session.grant_wasm_execution().unwrap();
    assert_eq!(session.role, GuestContextRole::Consumer);

    for action in [
        GuestAction::WritePayload,
        GuestAction::UpdatePayload,
        GuestAction::WriteContext,
        GuestAction::ExecuteWasm,
    ] {
        let err = session.verify_permissions(&action).expect_err("consumer contained");
        assert!(matches!(err.code, GuestErrorCode::PermissionDenied));
    }
    session.verify_permissions(&GuestAction::ReadPayload).unwrap();
    session.verify_permissions(&GuestAction::ReadContext).unwrap();
}

#[test]
fn session_starts_as_read_only_widget_consumer() {
    let session = test_session();
    assert_eq!(session.mode, GuestMode::Widget);
    assert_eq!(session.role, GuestContextRole::Consumer);
    assert!(session.permissions.can_read_payload);
    assert!(session.permissions.can_read_context);
    assert!(!session.permissions.can_write_payload);
    assert!(!session.permissions.can_execute_wasm);
    assert!(session.host_app.is_none());
    assert!(session.widget_bounds.is_none());
}

#[test]
fn blank_host_app_is_rejected() {
    let mut session = test_session();
    let err = session.set_host_app("   ").expect_err("blank host app rejected");
    assert!(matches!(err.code, GuestErrorCode::InvalidRequest));
    session.set_host_app("viewer").unwrap();
    assert_eq!(session.host_app.as_deref(), Some("viewer"));
}

#[test]
fn env_policy_rejects_mode_bounds_mismatch() {
    let mut session = test_session();
    let parent: Vec<(String, String)> = vec![("PATH".to_string(), "/bin".to_string())];
    let err = session.build_guest_env(&parent).expect_err("widget without bounds");
    assert!(matches!(err.code, GuestErrorCode::InvalidRequest));

    session.as_headless("viewer").unwrap();
    session.widget_bounds = Some(WidgetBounds { x: 1, y: 2, width: 3, height: 4 });
    let err = session.build_guest_env(&parent).expect_err("headless with bounds");
    assert!(matches!(err.code, GuestErrorCode::InvalidRequest));
}

#[test]
fn env_policy_builds_expected_entries() {
    let mut session = test_session();
    session.as_headless("viewer").unwrap();
    session.as_owner().unwrap();
    session.allow_env_var("FOO").unwrap();
    session.allow_host("example.com").unwrap();
    session.set_cpu_limit_ms(250).unwrap();

    let parent: Vec<(String, String)> = vec![
        ("PATH".to_string(), "/bin".to_string()),
        ("CAPSULE_TOKEN".to_string(), "t".to_string()),
        ("FOO".to_string(), "foo-value".to_string()),
        ("OTHER".to_string(), "x".to_string()),
    ];
    let env = session.build_guest_env(&parent).unwrap();

    let lookup = |k: &str| -> Option<String> {
        env.iter().rev().find(|(name, _)| name == k).map(|(_, v)| v.clone())
    };
    assert_eq!(lookup("PATH").as_deref(), Some("/bin"));
    assert_eq!(lookup("CAPSULE_TOKEN").as_deref(), Some("t"));
    assert_eq!(lookup("FOO").as_deref(), Some("foo-value"));
    assert_eq!(lookup("OTHER"), None);
    assert_eq!(lookup("ALLOW_HOSTS").as_deref(), Some("example.com"));
    assert_eq!(lookup("ALLOW_ENV").as_deref(), Some("FOO"));
    assert_eq!(lookup("CAPSULE_GUEST_PROTOCOL").as_deref(), Some("guest.v1"));
    assert_eq!(lookup("SYNC_PATH").as_deref(), Some("guest-test.sync"));
    assert_eq!(lookup("GUEST_MODE").as_deref(), Some("headless"));
    assert_eq!(lookup("GUEST_ROLE").as_deref(), Some("owner"));
    assert_eq!(lookup("GUEST_CPU_LIMIT_MS").as_deref(), Some("250"));
    assert_eq!(lookup("GUEST_MEMORY_LIMIT_MB"), None);
    assert_eq!(lookup("GUEST_WIDGET_BOUNDS"), None);
}

#[test]
fn widget_env_includes_bounds() {
    let mut session = test_session();
    session.as_widget("viewer").unwrap();
    session
        .set_widget_bounds(WidgetBounds { x: 10, y: 20, width: 800, height: 600 })
        .unwrap();
    let env = session.build_guest_env(&Vec::new()).unwrap();
    let bounds = env.iter().find(|(name, _)| name == "GUEST_WIDGET_BOUNDS").map(|(_, v)| v);
    assert_eq!(bounds.map(|s| s.as_str()), Some("10,20,800,600"));
    let mode = env.iter().find(|(name, _)| name == "GUEST_MODE").map(|(_, v)| v);
    assert_eq!(mode.map(|s| s.as_str()), Some("widget"));
}

#[test]
fn request_ids_render_from_sequence_numbers() {
    assert_eq!(sync_core::session::request_id_string(1), "guest-1");
    assert_eq!(sync_core::session::request_id_string(407), "guest-407");
}

#[test]
fn response_validation_checks_id_and_version() {
    assert!(sync_core::session::response_matches("guest-1", "guest-1", "guest.v1"));
    assert!(!sync_core::session::response_matches("guest-1", "guest-2", "guest.v1"));
    assert!(!sync_core::session::response_matches("guest-1", "guest-1", "guest.v2"));
    assert!(sync_core::session::downgrade_on_exit(true, false));
    assert!(!sync_core::session::downgrade_on_exit(true, true));
}
