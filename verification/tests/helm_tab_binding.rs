use warp_helm::helm_tab_binding::{
    format_helm_tab_title, freeze_remote, BindingError, BindingIncomplete, EndpointIdentity,
    HelmConnectionState, HelmEndpointBinding, HelmTabBinding,
};


fn full_args() -> (
    Option<&'static str>,
    Option<&'static str>,
    Option<&'static str>,
    Option<&'static str>,
    Option<&'static str>,
    Option<&'static str>,
) {
    (
        Some("ep-1"),
        Some("operator-laptop"),
        Some("laptop.local"),
        Some("macos"),
        Some("http://127.0.0.1:18080"),
        Some("jwt-A"),
    )
}

fn freeze_remote_from_tuple(
    fields: (
        Option<&str>,
        Option<&str>,
        Option<&str>,
        Option<&str>,
        Option<&str>,
        Option<&str>,
    ),
) -> Result<HelmEndpointBinding, BindingIncomplete> {
    freeze_remote(fields.0, fields.1, fields.2, fields.3, fields.4, fields.5)
}

#[test]
fn freeze_remote_with_all_required_fields_succeeds() {
    let b = freeze_remote_from_tuple(full_args()).expect("complete args");
    assert_eq!(b.endpoint_id, "ep-1");
    assert_eq!(b.endpoint_friendly_label, "operator-laptop");
    assert_eq!(b.endpoint_hostname, "laptop.local");
    assert_eq!(b.endpoint_os, "macos");
    assert_eq!(b.helm_oz_url, "http://127.0.0.1:18080");
    assert_eq!(b.agent_token, "jwt-A");
}

#[test]
fn freeze_remote_missing_agent_token_fails_closed() {
    let mut a = full_args();
    a.5 = None;
    let err = freeze_remote_from_tuple(a).unwrap_err();
    assert_eq!(err.missing, vec!["agent_token"]);
}

#[test]
fn freeze_remote_blank_string_fails_closed() {
    let a = (
        Some("ep-1"),
        Some("   "),
        Some("laptop.local"),
        Some("macos"),
        Some("http://127.0.0.1:18080"),
        Some("jwt-A"),
    );
    let err = freeze_remote_from_tuple(a).unwrap_err();
    assert_eq!(err.missing, vec!["endpoint_friendly_label"]);
}

#[test]
fn freeze_remote_lists_every_missing_field() {
    let err = freeze_remote(None, None, None, None, None, None).unwrap_err();
    assert_eq!(err.missing.len(), 6);
}

#[test]
fn slot_starts_empty() {
    let slot = HelmTabBinding::new();
    assert!(!slot.is_remote());
    assert!(slot.get().is_none());
}

#[test]
fn slot_freeze_remote_installs_binding_once() {
    let mut slot = HelmTabBinding::new();
    let b = freeze_remote_from_tuple(full_args()).unwrap();
    slot.freeze_remote(b.clone()).unwrap();
    assert!(slot.is_remote());
    assert_eq!(slot.get().unwrap().endpoint_id, "ep-1");

    // Second freeze refuses.
    let b2 = freeze_remote_from_tuple(full_args()).unwrap();
    let err = slot.freeze_remote(b2).unwrap_err();
    assert_eq!(err, BindingError::AlreadyFrozen);
}

#[test]
fn slot_try_rebind_to_same_endpoint_rotates_token() {
    let mut slot = HelmTabBinding::new();
    slot.freeze_remote(freeze_remote_from_tuple(full_args()).unwrap()).unwrap();

    // Same endpoint, fresh token: allowed.
    let candidate = HelmEndpointBinding::for_test(
        "ep-1",
        "operator-laptop",
        "laptop.local",
        "macos",
        "http://127.0.0.1:18080",
        "jwt-REFRESHED",
    );
    slot.try_rebind_remote(candidate).unwrap();
    assert_eq!(slot.get().unwrap().agent_token, "jwt-REFRESHED");
}

#[test]
fn slot_try_rebind_to_different_endpoint_refused() {
    let mut slot = HelmTabBinding::new();
    slot.freeze_remote(freeze_remote_from_tuple(full_args()).unwrap()).unwrap();

    // Different endpoint: refused.
    let candidate = HelmEndpointBinding::for_test(
        "ep-OTHER",
        "operator-laptop",
        "laptop.local",
        "macos",
        "http://127.0.0.1:18080",
        "jwt-OTHER",
    );
    let err = slot.try_rebind_remote(candidate).unwrap_err();
    assert_eq!(
        err,
        BindingError::EndpointMismatch {
            existing: "ep-1".into(),
            attempted: "ep-OTHER".into(),
        }
    );
    // The binding is still in place.
    assert_eq!(slot.get().unwrap().endpoint_id, "ep-1");
    assert_eq!(slot.get().unwrap().agent_token, "jwt-A");
}

fn identity_for_full_args() -> EndpointIdentity {
    EndpointIdentity::from_binding(&freeze_remote_from_tuple(full_args()).unwrap())
}

fn identity_other() -> EndpointIdentity {
    EndpointIdentity {
        endpoint_id: "ep-OTHER".to_string(),
        endpoint_friendly_label: "operator-laptop".to_string(),
        endpoint_hostname: "laptop.local".to_string(),
        endpoint_os: "macos".to_string(),
        helm_oz_url: "http://127.0.0.1:18080".to_string(),
    }
}

#[test]
fn slot_refresh_token_same_endpoint_rotates() {
    let mut slot = HelmTabBinding::new();
    slot.freeze_remote(freeze_remote_from_tuple(full_args()).unwrap()).unwrap();

    slot.try_refresh_token(&identity_for_full_args(), "jwt-REFRESHED")
        .unwrap();
    assert_eq!(slot.get().unwrap().agent_token, "jwt-REFRESHED");
}

#[test]
fn slot_refresh_token_different_endpoint_refused() {
    let mut slot = HelmTabBinding::new();
    slot.freeze_remote(freeze_remote_from_tuple(full_args()).unwrap()).unwrap();

    let err = slot
        .try_refresh_token(&identity_other(), "jwt-REFRESHED")
        .unwrap_err();
    assert!(matches!(err, BindingError::EndpointMismatch { .. }));
    assert_eq!(slot.get().unwrap().agent_token, "jwt-A");
}

#[test]
fn slot_refresh_token_blank_refused() {
    let mut slot = HelmTabBinding::new();
    slot.freeze_remote(freeze_remote_from_tuple(full_args()).unwrap()).unwrap();

    let err = slot
        .try_refresh_token(&identity_for_full_args(), "  ")
        .unwrap_err();
    assert!(matches!(err, BindingError::Incomplete(_)));
}

#[test]
fn slot_clear_is_idempotent() {
    let mut slot = HelmTabBinding::new();
    slot.clear();
    assert!(!slot.is_remote());
    slot.freeze_remote(freeze_remote_from_tuple(full_args()).unwrap()).unwrap();
    slot.clear();
    assert!(!slot.is_remote());
    slot.clear();
    assert!(!slot.is_remote());
}

#[test]
fn connection_state_defaults_to_connected() {
    let slot = HelmTabBinding::new();
    assert_eq!(slot.connection_state(), HelmConnectionState::Connected);
}

#[test]
fn connection_state_label_is_stable() {
    assert_eq!(HelmConnectionState::Connected.label(), "connected");
    assert_eq!(HelmConnectionState::Stale.label(), "stale");
    assert_eq!(HelmConnectionState::Disconnected.label(), "disconnected");
}

#[test]
fn connection_state_is_connected_only_for_connected() {
    assert!(HelmConnectionState::Connected.is_connected());
    assert!(!HelmConnectionState::Stale.is_connected());
    assert!(!HelmConnectionState::Disconnected.is_connected());
}

#[test]
fn freeze_remote_resets_state_to_connected() {
    let mut slot = HelmTabBinding::new();
    slot.set_connection_state(HelmConnectionState::Stale);
    assert_eq!(slot.connection_state(), HelmConnectionState::Stale);

    slot.freeze_remote(freeze_remote_from_tuple(full_args()).unwrap())
        .unwrap();
    // Freeze wins: the new binding has a fresh JWT and is trusted.
    // The pre-existing Stale flag must be cleared.
    assert_eq!(slot.connection_state(), HelmConnectionState::Connected);
}

#[test]
fn refresh_token_success_resets_state_to_connected() {
    let mut slot = HelmTabBinding::new();
    slot.freeze_remote(freeze_remote_from_tuple(full_args()).unwrap())
        .unwrap();
    slot.set_connection_state(HelmConnectionState::Stale);

    slot.try_refresh_token(&identity_for_full_args(), "jwt-NEW")
        .unwrap();

    // Same-endpoint token rotation succeeded — endpoint is back.
    assert_eq!(slot.connection_state(), HelmConnectionState::Connected);
}

#[test]
fn refresh_token_failure_does_not_reset_state() {
    let mut slot = HelmTabBinding::new();
    slot.freeze_remote(freeze_remote_from_tuple(full_args()).unwrap())
        .unwrap();
    slot.set_connection_state(HelmConnectionState::Stale);

    // Refresh refused (different endpoint) — connection state stays
    // whatever the refresh loop set last.
    let err = slot
        .try_refresh_token(&identity_other(), "jwt-NEW")
        .unwrap_err();
    assert!(matches!(err, BindingError::EndpointMismatch { .. }));
    assert_eq!(slot.connection_state(), HelmConnectionState::Stale);
}

#[test]
fn clear_resets_state_to_connected() {
    let mut slot = HelmTabBinding::new();
    slot.set_connection_state(HelmConnectionState::Disconnected);
    slot.clear();
    assert_eq!(slot.connection_state(), HelmConnectionState::Connected);
}

#[test]
fn two_simultaneous_slots_have_independent_states() {
    // A/B isolation extends to connection state — refreshing A must
    // not flip B's state, and freezing on one slot does not touch the
    // other.
    let mut slot_a = HelmTabBinding::new();
    let mut slot_b = HelmTabBinding::new();
    slot_b.set_connection_state(HelmConnectionState::Stale);

    slot_a
        .freeze_remote(freeze_remote_from_tuple(full_args()).unwrap())
        .unwrap();
    assert_eq!(slot_a.connection_state(), HelmConnectionState::Connected);
    assert_eq!(
        slot_b.connection_state(),
        HelmConnectionState::Stale,
        "B's state untouched"
    );

    slot_a.set_connection_state(HelmConnectionState::Stale);
    assert_eq!(
        slot_b.connection_state(),
        HelmConnectionState::Stale,
        "B unchanged after A's transition"
    );
}


#[test]
fn format_helm_tab_title_combines_label_and_hostname() {
    let title = format_helm_tab_title("operator-laptop", "laptop.local")
        .expect("both inputs non-blank");
    assert_eq!(title, "operator-laptop · laptop.local");
}

#[test]
fn format_helm_tab_title_trims_whitespace() {
    let title = format_helm_tab_title("  laptop  ", "  laptop.local  ")
        .expect("trims to non-empty");
    assert_eq!(title, "laptop · laptop.local");
}

#[test]
fn format_helm_tab_title_returns_none_for_empty_label() {
    assert!(format_helm_tab_title("", "laptop.local").is_none());
    assert!(format_helm_tab_title("   ", "laptop.local").is_none());
}

#[test]
fn format_helm_tab_title_returns_none_for_empty_hostname() {
    assert!(format_helm_tab_title("laptop", "").is_none());
    assert!(format_helm_tab_title("laptop", "   ").is_none());
}

#[test]
fn format_helm_tab_title_returns_none_for_both_blank() {
    assert!(format_helm_tab_title("", "").is_none());
}

#[test]
fn two_simultaneous_slots_have_independent_bindings() {
    // A/B isolation: two tabs, two different endpoints, neither
    // observes the other's state.
    let mut slot_a = HelmTabBinding::new();
    let mut slot_b = HelmTabBinding::new();

    let a = HelmEndpointBinding::for_test(
        "ep-A",
        "laptop-A",
        "laptop-a.local",
        "macos",
        "http://a.helm:18080",
        "jwt-A",
    );
    let b = HelmEndpointBinding::for_test(
        "ep-B",
        "laptop-B",
        "laptop-b.local",
        "linux",
        "http://b.helm:18080",
        "jwt-B",
    );
    slot_a.freeze_remote(a).unwrap();
    slot_b.freeze_remote(b).unwrap();

    assert_eq!(slot_a.get().unwrap().endpoint_id, "ep-A");
    assert_eq!(slot_a.get().unwrap().helm_oz_url, "http://a.helm:18080");
    assert_eq!(slot_b.get().unwrap().endpoint_id, "ep-B");
    assert_eq!(slot_b.get().unwrap().helm_oz_url, "http://b.helm:18080");

    // Refresh A doesn't touch B.
    let identity_a = EndpointIdentity::from_binding(&slot_a.get().unwrap());
    slot_a
        .try_refresh_token(&identity_a, "jwt-A-REFRESHED")
        .unwrap();
    assert_eq!(slot_a.get().unwrap().agent_token, "jwt-A-REFRESHED");
    assert_eq!(slot_b.get().unwrap().agent_token, "jwt-B", "B unchanged");
}
