use warp_helm::helm_tab_binding::{
    freeze_remote, BindingError, BindingIncomplete, EndpointIdentity, HelmConnectionState,
    HelmEndpointBinding, HelmTabBinding,
};
use warp_helm::helm_warp::{
    exchange_request_body, exchange_url, finish_exchange, finish_refresh_step, is_helm_warp_url,
    parse_action, refresh_loop_step, refresh_request_body, ExchangeError, ExchangeReply,
    ExchangeResponse, HelmExchangeCode, HelmRefreshDescriptor, LaunchUrlError, ParsedLaunchUrl,
    RefreshReply, RefreshResponse, RefreshStepError, WorkspaceAction,
};
use warp_helm::http_status::HttpStatus;
use warp_helm::urls::UrlParts;

fn url(text: &str) -> UrlParts {
    UrlParts::parse(text).expect("a URL")
}

fn response() -> ExchangeResponse {
    ExchangeResponse {
        helm_oz_url: " https://oz.example ".to_string(),
        agent_token: "jwt-A".to_string(),
        endpoint_id: " ep-A".to_string(),
        endpoint_friendly_label: "Laptop A".to_string(),
        endpoint_hostname: "laptop-a.local".to_string(),
        endpoint_os: "macos".to_string(),
        refresh_token: Some(" rt-A ".to_string()),
        refresh_url: Some("https://portal/refresh".to_string()),
    }
}

fn status(code: u16) -> HttpStatus {
    HttpStatus::new(code).expect("a status")
}

#[test]
fn url_parts_are_those_of_the_url() {
    let u = url("helm-warp://connect:81/p?a=1&b=x%20y&a=%2B#frag");
    assert_eq!(u.scheme, "helm-warp");
    assert_eq!(u.host.as_deref(), Some("connect"));
    assert_eq!(u.port, Some(81));
    assert_eq!(
        u.query,
        vec![
            ("a".to_string(), "1".to_string()),
            ("b".to_string(), "x y".to_string()),
            ("a".to_string(), "+".to_string()),
        ]
    );
    assert!(UrlParts::parse("no scheme").is_none());
}

#[test]
fn only_the_launch_scheme_is_a_launch_url() {
    assert!(is_helm_warp_url(&url("helm-warp://connect")));
    assert!(is_helm_warp_url(&url("HELM-WARP://other")));
    assert!(!is_helm_warp_url(&url("warp://connect")));
}

#[test]
fn launch_url_gives_portal_endpoint_and_code() {
    let action = parse_action(&url(
        "helm-warp://connect?portal=https%3A%2F%2Fp.example&endpoint_id=ep-A&exchange=code&x=y",
    ))
    .unwrap();
    match action {
        WorkspaceAction::ConnectHelmEndpoint { portal, exchange, endpoint_id } => {
            assert_eq!(portal, "https://p.example");
            assert_eq!(exchange.expose(), "code");
            assert_eq!(endpoint_id, "ep-A");
        }
    }
}

#[test]
fn the_last_of_equal_params_counts() {
    let parsed = ParsedLaunchUrl::parse(&url(
        "helm-warp://connect?portal=a&endpoint_id=b&exchange=c&portal=d",
    ))
    .map_err(|e| e.message())
    .unwrap();
    assert_eq!(parsed.portal, "d");
    assert_eq!(parsed.endpoint_id, "b");
    assert_eq!(parsed.exchange, "c");
}

#[test]
fn bad_launch_urls_name_the_first_fault() {
    let fault = |text: &str| match parse_action(&url(text)) {
        Ok(_) => panic!("expected a fault"),
        Err(e) => e,
    };
    assert_eq!(fault("helm-warp:connect"), LaunchUrlError::MissingHost);
    assert_eq!(fault("helm-warp:connect").message(), "helm-warp URL missing host");
    assert_eq!(
        fault("helm-warp://join?portal=a").message(),
        "unsupported helm-warp host: join (expected 'connect')"
    );
    assert_eq!(fault("helm-warp://connect").message(), "missing 'portal' query param");
    assert_eq!(
        fault("helm-warp://connect?portal=a").message(),
        "missing 'endpoint_id' query param"
    );
    assert_eq!(
        fault("helm-warp://connect?portal=a&endpoint_id=b"),
        LaunchUrlError::MissingParam { name: "exchange" }
    );
}

#[test]
fn action_prints_the_same_whatever_the_code() {
    let action = |code: &str| WorkspaceAction::ConnectHelmEndpoint {
        portal: "https://\"p\"".to_string(),
        exchange: HelmExchangeCode::new(code.to_string()),
        endpoint_id: "ep".to_string(),
    };
    assert_eq!(action("one").debug_text(), action("two").debug_text());
    assert_eq!(
        action("one").debug_text(),
        "ConnectHelmEndpoint { portal: \"https://\\\"p\\\"\", exchange: [REDACTED], endpoint_id: \"ep\" }"
    );
}

#[test]
fn exchange_goes_to_the_portal_without_doubled_slashes() {
    let expected = "https://p.example/api/v1/launch/exchange";
    assert_eq!(exchange_url("https://p.example"), expected);
    assert_eq!(exchange_url("https://p.example///"), expected);
    assert_eq!(exchange_url(""), "/api/v1/launch/exchange");
}

#[test]
fn request_bodies_are_json_objects() {
    let code = HelmExchangeCode::new("a\"b\\c\n".to_string());
    assert_eq!(exchange_request_body(&code), "{\"exchange_code\":\"a\\\"b\\\\c\\n\"}");
    let body: serde_json::Value = serde_json::from_str(&exchange_request_body(&code)).unwrap();
    assert_eq!(body.get("exchange_code").and_then(|v| v.as_str()), Some("a\"b\\c\n"));

    let identity = EndpointIdentity::from_binding(&HelmEndpointBinding::for_test(
        "e", "l", "h", "o", "u", "t",
    ));
    let descriptor = HelmRefreshDescriptor::new(Some("u"), Some("rt"), identity).unwrap();
    assert_eq!(refresh_request_body(&descriptor), "{\"refresh_token\":\"rt\"}");
}

#[test]
fn exchange_trims_what_it_binds() {
    let reply = ExchangeReply::Received { status: status(200), parsed: Ok(response()) };
    let outcome = finish_exchange(reply, "ep-A ").unwrap();
    assert_eq!(outcome.binding.endpoint_id, "ep-A");
    assert_eq!(outcome.binding.helm_oz_url, "https://oz.example");
    let descriptor = outcome.refresh_descriptor.unwrap();
    assert_eq!(descriptor.refresh_token, "rt-A");
    assert_eq!(descriptor.endpoint_identity, outcome.binding.endpoint_identity_owned());
}

#[test]
fn exchange_failures_are_told_apart() {
    let fail = |reply: ExchangeReply| finish_exchange(reply, "ep-A").unwrap_err();
    let cause = || "cause".to_string();
    assert_eq!(fail(ExchangeReply::NoClient { cause: cause() }).message(), "cause");
    assert_eq!(
        fail(ExchangeReply::NotSent { cause: cause() }).message(),
        "exchange HTTP request failed"
    );
    assert_eq!(
        fail(ExchangeReply::NotRead { cause: cause() }).message(),
        "reading exchange response"
    );
    let refused = fail(ExchangeReply::Received { status: status(403), parsed: Ok(response()) });
    assert_eq!(refused.message(), "exchange returned 403 Forbidden");
    let unknown = fail(ExchangeReply::Received { status: status(399), parsed: Ok(response()) });
    assert_eq!(unknown.message(), "exchange returned 399 <unknown status code>");
    assert_eq!(
        fail(ExchangeReply::Received { status: status(200), parsed: Err(cause()) }).message(),
        "parsing exchange response"
    );
    let mut other = response();
    other.endpoint_id = "ep-B".to_string();
    assert_eq!(
        fail(ExchangeReply::Received { status: status(200), parsed: Ok(other) }).message(),
        "exchange endpoint mismatch (requested=ep-A, returned=ep-B)"
    );
    let mut blank = response();
    blank.agent_token = " ".to_string();
    match fail(ExchangeReply::Received { status: status(299), parsed: Ok(blank) }) {
        ExchangeError::Incomplete { fields } => assert_eq!(fields.missing, vec!["agent_token"]),
        other => panic!("unexpected {other:?}"),
    }
}

fn bound_slot() -> (HelmTabBinding, HelmRefreshDescriptor) {
    let reply = ExchangeReply::Received { status: status(200), parsed: Ok(response()) };
    let outcome = finish_exchange(reply, "ep-A").unwrap();
    let mut slot = HelmTabBinding::new();
    slot.freeze_remote(outcome.binding).unwrap();
    (slot, outcome.refresh_descriptor.unwrap())
}

fn refresh(token: &str, endpoint_id: Option<&str>) -> RefreshReply {
    RefreshReply::Received {
        status: status(200),
        parsed: Ok(RefreshResponse {
            agent_token: token.to_string(),
            endpoint_id: endpoint_id.map(|s| s.to_string()),
        }),
    }
}

#[test]
fn exchanged_binding_refreshes() {
    let (mut slot, descriptor) = bound_slot();
    slot.set_connection_state(HelmConnectionState::Stale);
    let step = finish_refresh_step(refresh(" jwt-B ", Some(" ep-A ")));
    assert!(refresh_loop_step(&mut slot, &descriptor, step));
    assert_eq!(slot.get().unwrap().agent_token, "jwt-B");
    assert_eq!(slot.connection_state(), HelmConnectionState::Connected);
}

#[test]
fn transport_failure_is_retried_and_changes_nothing() {
    let (mut slot, descriptor) = bound_slot();
    slot.set_connection_state(HelmConnectionState::Disconnected);
    let step = finish_refresh_step(RefreshReply::NotSent { cause: "timeout".to_string() });
    assert!(matches!(step, Err(RefreshStepError::Http(_))));
    assert!(refresh_loop_step(&mut slot, &descriptor, step));
    assert_eq!(slot.connection_state(), HelmConnectionState::Disconnected);
    assert_eq!(slot.get().unwrap().agent_token, "jwt-A");
}

#[test]
fn every_other_failure_stops_the_loop_and_marks_stale() {
    let replies = vec![
        RefreshReply::NoClient { cause: "tls".to_string() },
        RefreshReply::Received { status: status(500), parsed: Err("html".to_string()) },
        RefreshReply::Received { status: status(200), parsed: Err("html".to_string()) },
        refresh("jwt-B", Some("ep-B")),
        refresh("jwt-B", None),
        refresh("  ", Some("ep-A")),
    ];
    for reply in replies {
        let (mut slot, descriptor) = bound_slot();
        let before = slot.get().unwrap();
        assert!(!refresh_loop_step(&mut slot, &descriptor, finish_refresh_step(reply)));
        assert_eq!(slot.connection_state(), HelmConnectionState::Stale);
        assert_eq!(slot.get().unwrap(), before);
    }
}

#[test]
fn refresh_status_counts_before_the_body() {
    let reply = RefreshReply::Received {
        status: status(401),
        parsed: Ok(RefreshResponse { agent_token: "t".to_string(), endpoint_id: None }),
    };
    match finish_refresh_step(reply) {
        Err(RefreshStepError::HttpStatus(s)) => assert_eq!(s.code(), 401),
        other => panic!("unexpected {other:?}"),
    }
}

#[test]
fn refresh_of_an_unbound_tab_stops_without_a_mark() {
    let (_, descriptor) = bound_slot();
    let mut slot = HelmTabBinding::new();
    let step = finish_refresh_step(refresh("jwt-B", Some("ep-A")));
    assert!(!refresh_loop_step(&mut slot, &descriptor, step));
    assert!(slot.get().is_none());
    assert_eq!(slot.connection_state(), HelmConnectionState::Connected);
}

#[test]
fn binding_errors_have_messages() {
    assert_eq!(BindingError::AlreadyFrozen.message(), "helm tab binding already frozen");
    assert_eq!(BindingError::NotFrozen.message(), "helm tab binding not frozen");
    let mismatch =
        BindingError::EndpointMismatch { existing: "a".to_string(), attempted: "b".to_string() };
    assert_eq!(
        mismatch.message(),
        "helm tab endpoint rebind refused (frozen=a, attempted=b)"
    );
    let err: BindingIncomplete =
        freeze_remote(Some("e"), None, Some("h"), Some(""), Some("u"), Some("t")).unwrap_err();
    assert_eq!(
        err.message(),
        "helm tab binding incomplete (missing: [\"endpoint_friendly_label\", \"endpoint_os\"])"
    );
    assert_eq!(
        BindingError::Incomplete(err.clone()).message(),
        err.message()
    );
}

#[test]
fn rebind_needs_a_binding() {
    let mut slot = HelmTabBinding::new();
    let b = HelmEndpointBinding::for_test("e", "l", "h", "o", "u", "t");
    assert_eq!(slot.try_rebind_remote(b.clone()), Err(BindingError::NotFrozen));
    let identity = b.endpoint_identity_owned();
    assert_eq!(slot.try_refresh_token(&identity, "t2"), Err(BindingError::NotFrozen));
    assert!(!slot.is_remote());
}

#[test]
fn shared_bindings_have_the_same_identity() {
    let mut slot = HelmTabBinding::new();
    let b = HelmEndpointBinding::for_test("e", "l", "h", "o", "u", "t");
    slot.freeze_remote(b.clone()).unwrap();
    let shared = slot.get().unwrap();
    assert_eq!(HelmEndpointBinding::endpoint_identity_arc(&shared), b.endpoint_identity_owned());
    let other = HelmEndpointBinding::for_test("e", "l", "h", "o", "u2", "t");
    assert!(!b.endpoint_identity_owned().same_endpoint(&other.endpoint_identity_owned()));
}

#[test]
fn rebind_keeps_the_connection_state() {
    let mut slot = HelmTabBinding::new();
    let b = HelmEndpointBinding::for_test("e", "l", "h", "o", "u", "t");
    slot.freeze_remote(b.clone()).unwrap();
    slot.set_connection_state(HelmConnectionState::Stale);
    slot.try_rebind_remote(b).unwrap();
    assert_eq!(slot.connection_state(), HelmConnectionState::Stale);
}

#[test]
fn frozen_bindings_freeze_to_themselves() {
    let once = freeze_remote(
        Some(" e "),
        Some("l\t"),
        Some("h"),
        Some("\no"),
        Some("u"),
        Some(" t"),
    )
    .unwrap();
    assert_eq!(once, HelmEndpointBinding::for_test("e", "l", "h", "o", "u", "t"));
    let twice = freeze_remote(
        Some(&once.endpoint_id),
        Some(&once.endpoint_friendly_label),
        Some(&once.endpoint_hostname),
        Some(&once.endpoint_os),
        Some(&once.helm_oz_url),
        Some(&once.agent_token),
    )
    .unwrap();
    assert_eq!(once, twice);
}

#[test]
fn refused_operations_leave_the_slot_alone() {
    let (mut slot, _) = bound_slot();
    slot.set_connection_state(HelmConnectionState::Disconnected);
    let before = slot.get().unwrap();
    let other = HelmEndpointBinding::for_test("e", "l", "h", "o", "u", "t");
    assert!(slot.freeze_remote(other.clone()).is_err());
    assert!(slot.try_rebind_remote(other.clone()).is_err());
    assert!(slot.try_refresh_token(&other.endpoint_identity_owned(), "x").is_err());
    assert!(slot.try_refresh_token(&before.endpoint_identity_owned(), " ").is_err());
    assert_eq!(slot.get().unwrap(), before);
    assert_eq!(slot.connection_state(), HelmConnectionState::Disconnected);
}

#[test]
fn a_bound_tab_keeps_its_endpoint() {
    let (mut slot, descriptor) = bound_slot();
    let identity = slot.get().unwrap().endpoint_identity_owned();
    for reply in [
        refresh("jwt-1", Some("ep-A")),
        refresh("jwt-2", Some("ep-B")),
        RefreshReply::NotSent { cause: String::new() },
        refresh("jwt-3", Some("ep-A")),
    ] {
        refresh_loop_step(&mut slot, &descriptor, finish_refresh_step(reply));
        assert_eq!(slot.get().unwrap().endpoint_identity_owned(), identity);
    }
    assert_eq!(slot.get().unwrap().agent_token, "jwt-3");
}

#[test]
fn a_disconnected_tab_stays_disconnected_when_its_token_rotates() {
    let b = HelmEndpointBinding::for_test("ep-1", "L", "h", "macos", "http://a", "t");
    let mut slot = HelmTabBinding::new();
    assert_eq!(slot.freeze_remote(b.clone()), Ok(()));
    slot.set_connection_state(HelmConnectionState::Disconnected);
    assert_eq!(slot.try_refresh_token(&EndpointIdentity::from_binding(&b), "t2"), Ok(()));
    assert_eq!(slot.connection_state(), HelmConnectionState::Disconnected);
    assert_eq!(slot.get().unwrap().agent_token, "t2");
    assert_eq!(slot.try_rebind_remote(b), Ok(()));
    assert_eq!(slot.connection_state(), HelmConnectionState::Disconnected);
    slot.mark_stale();
    assert_eq!(slot.connection_state(), HelmConnectionState::Disconnected);
}

#[test]
fn no_refresh_step_reconnects_a_disconnected_tab() {
    let replies = vec![
        refresh("jwt-B", Some("ep-A")),
        refresh("jwt-B", Some("ep-B")),
        refresh(" ", None),
        RefreshReply::NoClient { cause: String::new() },
        RefreshReply::NotSent { cause: String::new() },
        RefreshReply::Received { status: status(500), parsed: Err(String::new()) },
        RefreshReply::Received { status: status(200), parsed: Err(String::new()) },
    ];
    let (mut slot, descriptor) = bound_slot();
    slot.set_connection_state(HelmConnectionState::Disconnected);
    for reply in replies {
        refresh_loop_step(&mut slot, &descriptor, finish_refresh_step(reply));
        assert_eq!(slot.connection_state(), HelmConnectionState::Disconnected);
    }
    assert_eq!(slot.get().unwrap().agent_token, "jwt-B");
}

#[test]
fn rebind_refuses_a_blank_token() {
    let mut slot = HelmTabBinding::new();
    let blank = HelmEndpointBinding::for_test("e", "l", "h", "o", "u", " \t");
    assert_eq!(slot.try_rebind_remote(blank.clone()), Err(BindingError::NotFrozen));
    slot.freeze_remote(HelmEndpointBinding::for_test("e", "l", "h", "o", "u", "t")).unwrap();
    assert_eq!(
        slot.try_rebind_remote(blank),
        Err(BindingError::Incomplete(BindingIncomplete { missing: vec!["agent_token"] }))
    );
    assert_eq!(slot.get().unwrap().agent_token, "t");
    let other = HelmEndpointBinding::for_test("e2", "l", "h", "o", "u", "");
    assert!(matches!(
        slot.try_rebind_remote(other),
        Err(BindingError::EndpointMismatch { .. })
    ));
}
