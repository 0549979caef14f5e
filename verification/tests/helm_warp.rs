use warp_helm::helm_tab_binding::{
    EndpointIdentity, HelmConnectionState, HelmEndpointBinding, HelmTabBinding,
};
use warp_helm::helm_warp::{
    apply_refresh_to_slot, decide_refresh_action, mark_slot_stale, parse_action,
    validate_exchange_response, ExchangeResponse, HelmRefreshDescriptor, RefreshDecision,
    RefreshResponse,
};
use warp_helm::urls::UrlParts;


fn complete_response() -> ExchangeResponse {
    ExchangeResponse {
        helm_oz_url: "https://oz.example".to_string(),
        agent_token: "jwt-A".to_string(),
        endpoint_id: "ep-A".to_string(),
        endpoint_friendly_label: "Laptop A".to_string(),
        endpoint_hostname: "laptop-a.local".to_string(),
        endpoint_os: "macos".to_string(),
        refresh_token: None,
        refresh_url: None,
    }
}

fn complete_response_with_refresh() -> ExchangeResponse {
    let mut r = complete_response();
    r.refresh_token = Some("rt-A".to_string());
    r.refresh_url = Some("https://portal/api/v1/launch/refresh".to_string());
    r
}

fn identity_a() -> EndpointIdentity {
    EndpointIdentity::from_binding(&HelmEndpointBinding::for_test(
        "ep-A",
        "Laptop A",
        "laptop-a.local",
        "macos",
        "https://oz.example",
        "jwt-A",
    ))
}

#[test]
fn exchange_response_freezes_complete_binding() {
    let outcome = validate_exchange_response(complete_response(), "ep-A").unwrap();
    assert_eq!(outcome.binding.endpoint_id, "ep-A");
    assert_eq!(outcome.binding.endpoint_friendly_label, "Laptop A");
    assert_eq!(outcome.binding.agent_token, "jwt-A");
    assert!(
        outcome.refresh_descriptor.is_none(),
        "no refresh_token/refresh_url → no descriptor"
    );
}

#[test]
fn exchange_response_rejects_endpoint_mismatch() {
    let error = validate_exchange_response(complete_response(), "ep-B").unwrap_err();
    assert!(error.message().contains("endpoint mismatch"));
}

#[test]
fn exchange_response_rejects_blank_required_field() {
    let mut response = complete_response();
    response.endpoint_hostname = "  ".to_string();
    let error = validate_exchange_response(response, "ep-A").unwrap_err();
    assert!(error.message().contains("validating exchange response"));
}

#[test]
fn exchange_response_builds_refresh_descriptor_when_both_fields_present() {
    let outcome =
        validate_exchange_response(complete_response_with_refresh(), "ep-A").unwrap();
    let desc = outcome
        .refresh_descriptor
        .expect("both refresh fields present → Some");
    assert_eq!(desc.refresh_token, "rt-A");
    assert_eq!(desc.refresh_url, "https://portal/api/v1/launch/refresh");
    assert_eq!(desc.endpoint_identity.endpoint_id, "ep-A");
}

#[test]
fn exchange_response_skips_descriptor_when_only_one_refresh_field_present() {
    let mut r = complete_response();
    r.refresh_token = Some("rt-A".to_string());
    r.refresh_url = None;
    let outcome = validate_exchange_response(r, "ep-A").unwrap();
    assert!(
        outcome.refresh_descriptor.is_none(),
        "partial refresh fields must not produce a descriptor"
    );

    let mut r = complete_response();
    r.refresh_token = None;
    r.refresh_url = Some("https://portal/api/v1/launch/refresh".to_string());
    let outcome = validate_exchange_response(r, "ep-A").unwrap();
    assert!(outcome.refresh_descriptor.is_none());
}

#[test]
fn exchange_response_skips_descriptor_when_refresh_fields_are_blank() {
    let mut r = complete_response();
    r.refresh_token = Some("   ".to_string());
    r.refresh_url = Some("https://portal/api/v1/launch/refresh".to_string());
    let outcome = validate_exchange_response(r, "ep-A").unwrap();
    assert!(outcome.refresh_descriptor.is_none(), "blank token → None");
}

#[test]
fn action_debug_redacts_exchange_code() {
    let url = UrlParts::parse(
        "helm-warp://connect?portal=https%3A%2F%2Fportal.example&endpoint_id=ep-A&exchange=secret-code",
    )
    .unwrap();
    let action = parse_action(&url).unwrap();
    let debug = action.debug_text();
    assert!(!debug.contains("secret-code"));
    assert!(debug.contains("[REDACTED]"));
}


#[test]
fn refresh_decision_same_endpoint_rotates() {
    let frozen = identity_a();
    let d = decide_refresh_action(&frozen, Some("jwt-NEW"), Some("ep-A"));
    assert_eq!(
        d,
        RefreshDecision::Rotate {
            fresh_agent_token: "jwt-NEW".into(),
        }
    );
}

#[test]
fn refresh_decision_different_endpoint_refused() {
    let frozen = identity_a();
    let d = decide_refresh_action(&frozen, Some("jwt-NEW"), Some("ep-OTHER"));
    assert_eq!(
        d,
        RefreshDecision::DifferentEndpoint {
            existing: "ep-A".into(),
            attempted: Some("ep-OTHER".into()),
        }
    );
}

#[test]
fn refresh_decision_missing_endpoint_id_refused() {
    let frozen = identity_a();
    let d = decide_refresh_action(&frozen, Some("jwt-NEW"), None);
    assert!(matches!(d, RefreshDecision::MalformedResponse { .. }));
    if let RefreshDecision::MalformedResponse { missing } = d {
        assert!(missing.contains(&"endpoint_id"));
    }
}

#[test]
fn refresh_decision_missing_agent_token_refused() {
    let frozen = identity_a();
    let d = decide_refresh_action(&frozen, None, Some("ep-A"));
    assert!(matches!(d, RefreshDecision::MalformedResponse { .. }));
    if let RefreshDecision::MalformedResponse { missing } = d {
        assert!(missing.contains(&"agent_token"));
    }
}

#[test]
fn refresh_decision_blank_agent_token_refused() {
    let frozen = identity_a();
    let d = decide_refresh_action(&frozen, Some("   "), Some("ep-A"));
    assert!(matches!(d, RefreshDecision::MalformedResponse { .. }));
}

#[test]
fn refresh_decision_lists_every_missing_field() {
    let frozen = identity_a();
    let d = decide_refresh_action(&frozen, None, None);
    if let RefreshDecision::MalformedResponse { missing } = d {
        assert_eq!(missing.len(), 2);
    } else {
        panic!("expected MalformedResponse");
    }
}


#[test]
fn mark_slot_stale_sets_state() {
    let mut slot = HelmTabBinding::new();
    assert_eq!(slot.connection_state(), HelmConnectionState::Connected);
    mark_slot_stale(&mut slot);
    assert_eq!(slot.connection_state(), HelmConnectionState::Stale);
}

#[test]
fn apply_refresh_rotation_clears_prior_stale_state() {
    // The refresh loop may have previously observed a stale condition
    // and stopped; a fresh, valid refresh must reset state to
    // Connected so the next request is allowed through.
    let mut slot = HelmTabBinding::new();
    slot.freeze_remote(complete_response_binding()).unwrap();
    slot.set_connection_state(HelmConnectionState::Stale);
    assert_eq!(slot.connection_state(), HelmConnectionState::Stale);

    let resp = RefreshResponse {
        agent_token: "jwt-NEW".to_string(),
        endpoint_id: Some("ep-A".to_string()),
    };
    let continued = apply_refresh_to_slot(&mut slot, &identity_a(), &resp);
    assert!(continued);
    assert_eq!(slot.connection_state(), HelmConnectionState::Connected);
}

#[test]
fn apply_refresh_different_endpoint_marks_stale() {
    let mut slot = HelmTabBinding::new();
    slot.freeze_remote(complete_response_binding()).unwrap();

    let resp = RefreshResponse {
        agent_token: "jwt-NEW".to_string(),
        endpoint_id: Some("ep-OTHER".to_string()),
    };
    let continued = apply_refresh_to_slot(&mut slot, &identity_a(), &resp);
    assert!(!continued, "refused by decide_refresh_action");
    assert_eq!(
        slot.connection_state(),
        HelmConnectionState::Stale,
        "DifferentEndpoint must mark the slot Stale so the next request is refused"
    );
    // The binding is untouched.
    assert_eq!(slot.get().unwrap().agent_token, "jwt-A");
}

#[test]
fn apply_refresh_malformed_response_marks_stale() {
    let mut slot = HelmTabBinding::new();
    slot.freeze_remote(complete_response_binding()).unwrap();

    let resp = RefreshResponse {
        agent_token: "   ".to_string(),
        endpoint_id: Some("ep-A".to_string()),
    };
    let continued = apply_refresh_to_slot(&mut slot, &identity_a(), &resp);
    assert!(!continued);
    assert_eq!(slot.connection_state(), HelmConnectionState::Stale);
    assert_eq!(slot.get().unwrap().agent_token, "jwt-A", "untouched");
}

#[test]
fn apply_refresh_missing_endpoint_id_marks_stale() {
    let mut slot = HelmTabBinding::new();
    slot.freeze_remote(complete_response_binding()).unwrap();

    let resp = RefreshResponse {
        agent_token: "jwt-NEW".to_string(),
        endpoint_id: None,
    };
    let continued = apply_refresh_to_slot(&mut slot, &identity_a(), &resp);
    assert!(!continued);
    assert_eq!(slot.connection_state(), HelmConnectionState::Stale);
}

#[test]
fn apply_refresh_rotates_when_same_endpoint_and_valid_response() {
    let mut slot = HelmTabBinding::new();
    slot.freeze_remote(complete_response_binding()).unwrap();
    let resp = RefreshResponse {
        agent_token: "jwt-NEW".to_string(),
        endpoint_id: Some("ep-A".to_string()),
    };
    assert!(apply_refresh_to_slot(&mut slot, &identity_a(), &resp));
    assert_eq!(slot.get().unwrap().agent_token, "jwt-NEW");
}

#[test]
fn apply_refresh_returns_false_and_does_not_mutate_on_different_endpoint() {
    let mut slot = HelmTabBinding::new();
    slot.freeze_remote(complete_response_binding()).unwrap();
    let resp = RefreshResponse {
        agent_token: "jwt-NEW".to_string(),
        endpoint_id: Some("ep-OTHER".to_string()),
    };
    assert!(!apply_refresh_to_slot(&mut slot, &identity_a(), &resp));
    assert_eq!(slot.get().unwrap().agent_token, "jwt-A", "untouched");
}

#[test]
fn apply_refresh_returns_false_on_malformed_response() {
    let mut slot = HelmTabBinding::new();
    slot.freeze_remote(complete_response_binding()).unwrap();
    let resp = RefreshResponse {
        agent_token: "   ".to_string(),
        endpoint_id: Some("ep-A".to_string()),
    };
    assert!(!apply_refresh_to_slot(&mut slot, &identity_a(), &resp));
    assert_eq!(slot.get().unwrap().agent_token, "jwt-A", "untouched");
}

#[test]
fn apply_refresh_returns_false_when_endpoint_id_missing_from_response() {
    let mut slot = HelmTabBinding::new();
    slot.freeze_remote(complete_response_binding()).unwrap();
    let resp = RefreshResponse {
        agent_token: "jwt-NEW".to_string(),
        endpoint_id: None,
    };
    assert!(!apply_refresh_to_slot(&mut slot, &identity_a(), &resp));
    assert_eq!(slot.get().unwrap().agent_token, "jwt-A", "untouched");
}

#[test]
fn refresh_descriptor_new_rejects_blank_fields() {
    let id = identity_a();
    assert!(HelmRefreshDescriptor::new(Some("https://x"), None, id.clone()).is_none());
    assert!(HelmRefreshDescriptor::new(None, Some("rt"), id.clone()).is_none());
    assert!(HelmRefreshDescriptor::new(Some("   "), Some("rt"), id.clone()).is_none());
    assert!(HelmRefreshDescriptor::new(Some("https://x"), Some("  "), id.clone()).is_none());
}

#[test]
fn refresh_descriptor_new_accepts_complete() {
    let id = identity_a();
    let d = HelmRefreshDescriptor::new(Some("https://x"), Some("rt"), id).unwrap();
    assert_eq!(d.refresh_url, "https://x");
    assert_eq!(d.refresh_token, "rt");
}

fn complete_response_binding() -> HelmEndpointBinding {
    HelmEndpointBinding::for_test(
        "ep-A",
        "Laptop A",
        "laptop-a.local",
        "macos",
        "https://oz.example",
        "jwt-A",
    )
}
