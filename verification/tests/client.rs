use axonflow_sdk_rust::client::{
    as_user_token, basic_authorization, cancel_reason, effective_client_id, effective_user_token,
    empty_plan_data_error, fail_open_error, identity_to_stamp, is_mutation, missing_connectors_error,
    plan_status, prepare_client, retry_delay, retry_is_terminal, same_origin, should_fail_open,
    after_failure, cache_key_parts, no_attempts_error, proxy_plan, ProxyPlan, RetryAction,
    status_carries_response, status_error, redirect_step, RedirectStep, MAX_REDIRECTS,
};
use axonflow_sdk_rust::config::{AxonFlowConfig, Mode, RetryConfig};
use axonflow_sdk_rust::error::AxonFlowError;

fn stamped(endpoint: &str, configured: Option<&str>, url: &str, per_call: Option<&str>) -> Option<String> {
    identity_to_stamp(per_call, configured, url, endpoint).expect("usable token")
}

fn refusal(token: &str) -> String {
    match identity_to_stamp(Some(token), None, "https://localhost:8080/api/v1/decisions", "https://localhost:8080") {
        Err(e) => e.to_string(),
        Ok(v) => panic!("an unsendable identity must be reported, got {v:?}"),
    }
}

#[test]
fn the_identity_is_stamped_only_for_the_configured_origin() {
    let endpoint = "https://localhost:8080";
    assert_eq!(
        stamped(endpoint, Some("SENTINEL"), "https://localhost:8080/api/v1/decisions", None).as_deref(),
        Some("SENTINEL"),
        "the configured origin must carry the identity"
    );
    for elsewhere in [
        "https://elsewhere.invalid/api/v1/decisions",
        "https://localhost:9999/api/v1/decisions",
        "http://localhost:8080/api/v1/decisions",
    ] {
        assert_eq!(
            stamped(endpoint, Some("SENTINEL"), elsewhere, None),
            None,
            "{elsewhere} is not the configured origin and must not receive the identity"
        );
    }
}

#[test]
fn an_unusable_token_is_reported_without_echoing_it() {
    let rendered = refusal("SENTINEL\u{7f}VALUE");
    assert!(!rendered.contains("SENTINEL"), "token echoed: {rendered}");
    assert!(!rendered.contains("VALUE"), "token echoed: {rendered}");
    assert!(
        rendered.contains("control character") && rendered.contains("byte 8"),
        "the message must locate the offending byte and name its class: {rendered}"
    );
    let tab = refusal("SENTINEL\tX\u{7f}VALUE");
    assert!(tab.contains("byte 10"), "want the DEL's position, not the legal tab's: {tab}");
}

#[test]
fn the_diagnostic_points_at_the_control_char_not_at_legal_non_ascii() {
    let rendered = refusal("café-tok\nen");
    assert!(rendered.contains("byte 9"), "want the newline's position, not the first non-ASCII byte's: {rendered}");
    assert!(
        !rendered.contains("non-ASCII byte at"),
        "non-ASCII is legal in a header value and must not be named as the offender: {rendered}"
    );
}

#[test]
fn a_non_ascii_token_is_sent_rather_than_refused() {
    assert_eq!(
        stamped("https://localhost:8080", Some("café-token"), "https://localhost:8080/api/v1/decisions", None).as_deref(),
        Some("café-token"),
        "a non-ASCII token must be SENT, not refused"
    );
}

#[test]
fn an_unparseable_endpoint_sends_no_identity() {
    assert_eq!(stamped("not a url", Some("SENTINEL"), "https://localhost:8080/x", None), None);
}

#[test]
fn an_explicit_empty_override_does_not_fall_back() {
    let endpoint = "https://localhost:8080";
    let url = "https://localhost:8080/api/v1/decisions";
    assert_eq!(stamped(endpoint, Some("CLIENT-WIDE"), url, None).as_deref(), Some("CLIENT-WIDE"));
    assert_eq!(stamped(endpoint, Some("CLIENT-WIDE"), url, Some("PER-CALL")).as_deref(), Some("PER-CALL"));
    assert_eq!(stamped(endpoint, Some("CLIENT-WIDE"), url, Some("   ")), None);
    assert_eq!(stamped(endpoint, Some("  padded  "), url, None).as_deref(), Some("padded"));
}

#[test]
fn same_origin_is_scheme_host_and_port() {
    assert!(same_origin("https://localhost:8080/a", "https://localhost:8080"));
    assert!(same_origin("https://example.com/a", "https://example.com:443/b"));
    assert!(!same_origin("https://api.example.com", "https://example.com"));
    assert!(!same_origin("not a url", "not a url"));
}

#[test]
fn a_retry_budget_of_zero_is_refused() {
    let config = AxonFlowConfig::new("http://localhost:8080").with_retry(RetryConfig { enabled: true, max_attempts: 0, initial_delay: 1 });
    match prepare_client(config, false, false) {
        Err(AxonFlowError::ConfigError(m)) => assert_eq!(m, "retry.max_attempts must be at least 1"),
        _ => panic!("expected a configuration error"),
    }
}

#[test]
fn try_mode_needs_a_client_id_and_forces_the_endpoint() {
    match prepare_client(AxonFlowConfig::new("http://localhost:8080"), true, false) {
        Err(AxonFlowError::ConfigError(m)) => assert_eq!(m, "ClientID is required in try mode (AXONFLOW_TRY=1)."),
        _ => panic!("expected a configuration error"),
    }
    let setup = prepare_client(AxonFlowConfig::new("http://localhost:8080").with_auth("org", "lic"), true, false)
        .ok()
        .expect("try mode with credentials");
    assert_eq!(setup.config.endpoint, "https://try.getaxonflow.com");
}

#[test]
fn the_default_headers_carry_the_credentials() {
    let setup = prepare_client(AxonFlowConfig::new("http://localhost:8080"), false, false).ok().expect("setup");
    assert_eq!(setup.headers[0], ("Authorization".to_string(), "Basic Y29tbXVuaXR5Og==".to_string()));
    assert_eq!(setup.headers[1], ("X-Client-ID".to_string(), "community".to_string()));
    assert_eq!(setup.headers.len(), 2);
    assert!(!setup.accept_invalid_certs);
    assert!(!setup.secret_without_id);

    let licensed = prepare_client(
        AxonFlowConfig::new("http://localhost:8080").with_auth("org-1", "license-1").with_license_key("KEY"),
        false,
        true,
    )
    .ok()
    .expect("setup");
    assert_eq!(licensed.headers[0].1, "Basic b3JnLTE6bGljZW5zZS0x");
    assert_eq!(licensed.headers[2], ("X-License-Key".to_string(), "KEY".to_string()));
    assert!(licensed.accept_invalid_certs);

    let mut bad = AxonFlowConfig::new("http://localhost:8080");
    bad.client_secret = Some("s".into());
    bad.license_key = Some("bad\nkey".into());
    let setup = prepare_client(bad, false, false).ok().expect("setup");
    assert!(setup.secret_without_id);
    assert_eq!(setup.headers.len(), 2, "an unsendable license key is left out");
    assert_eq!(basic_authorization(Some("a"), Some("b")), "Basic YTpi");
}

#[test]
fn proxy_call_rules() {
    assert_eq!(effective_user_token(""), "anonymous");
    assert_eq!(effective_user_token("u"), "u");
    for m in ["execute-plan", "generate-plan", "cancel-plan", "update-plan"] {
        assert!(is_mutation(m));
    }
    assert!(!is_mutation("chat"));
    let unavailable = AxonFlowError::Unavailable("down".into());
    assert!(should_fail_open(Mode::Production, &unavailable));
    assert!(!should_fail_open(Mode::Sandbox, &unavailable));
    assert!(!should_fail_open(Mode::Production, &AxonFlowError::ConfigError("x".into())));
    assert_eq!(fail_open_error(&unavailable), "AxonFlow unavailable (fail-open): AxonFlow platform is unavailable: down");
}

#[test]
fn retry_rules() {
    let e = |status| AxonFlowError::ApiError { status, message: String::new() };
    assert!(retry_is_terminal(&e(401)));
    assert!(retry_is_terminal(&e(404)));
    assert!(!retry_is_terminal(&e(429)));
    assert!(!retry_is_terminal(&e(402)));
    assert!(!retry_is_terminal(&e(403)));
    assert!(!retry_is_terminal(&e(500)));
    assert!(!retry_is_terminal(&AxonFlowError::Unavailable("x".into())));
    assert_eq!(retry_delay(1000, 0), 0);
    assert_eq!(retry_delay(1000, 1), 1000);
    assert_eq!(retry_delay(1000, 2), 2000);
    assert_eq!(retry_delay(1000, 3), 4000);
    assert_eq!(retry_delay(u64::MAX, 3), u64::MAX);
    assert!(status_carries_response(200));
    assert!(status_carries_response(402));
    assert!(status_carries_response(403));
    assert!(!status_carries_response(404));
    assert!(matches!(status_error(418, "tea".into()), AxonFlowError::ApiError { status: 418, .. }));
}

#[test]
fn small_defaults() {
    assert_eq!(as_user_token("  alice  ").as_deref(), Some("alice"));
    assert_eq!(as_user_token("   "), None);
    assert_eq!(plan_status(String::new(), true, false), "completed");
    assert_eq!(plan_status(String::new(), true, true), "failed");
    assert_eq!(plan_status(String::new(), false, false), "failed");
    assert_eq!(plan_status("running".into(), false, false), "running");
    assert_eq!(cancel_reason(None), "user_cancelled");
    assert_eq!(cancel_reason(Some("why")), "why");
    assert_eq!(effective_client_id(None), "community");
    assert_eq!(effective_client_id(Some("org")), "org");
    assert_eq!(missing_connectors_error().to_string(), "API error (200): response missing 'connectors' field");
    assert_eq!(empty_plan_data_error(false).to_string(), "API error (500): empty plan data");
    assert_eq!(empty_plan_data_error(true).to_string(), "API error (500): empty execution data");
}

#[test]
fn the_retry_loop_backs_off_and_stops_at_the_budget() {
    let server_error = AxonFlowError::ApiError { status: 503, message: "busy".into() };
    assert_eq!(after_failure(0, 3, 1000, &server_error), RetryAction::Wait { delay: 1000, next: 1 });
    assert_eq!(after_failure(1, 3, 1000, &server_error), RetryAction::Wait { delay: 2000, next: 2 });
    assert_eq!(after_failure(2, 3, 1000, &server_error), RetryAction::GiveUp);
    assert_eq!(after_failure(0, 1, 1000, &server_error), RetryAction::GiveUp);
    let unauthorized = AxonFlowError::ApiError { status: 401, message: "no".into() };
    assert_eq!(after_failure(0, 3, 1000, &unauthorized), RetryAction::GiveUp, "a 401 is never retried");
    let refused = AxonFlowError::HttpError { timeout: false, connect: true, status: None, message: "refused".into() };
    assert_eq!(after_failure(0, 5, 250, &refused), RetryAction::Wait { delay: 250, next: 1 });
    match no_attempts_error() {
        AxonFlowError::ConfigError(m) => assert_eq!(m, "retry loop completed with no attempts"),
        other => panic!("{other:?}"),
    }
}

#[test]
fn mutations_are_never_cached_or_retried() {
    for mutation in ["execute-plan", "generate-plan", "cancel-plan", "update-plan"] {
        assert_eq!(
            proxy_plan(mutation, true, true),
            ProxyPlan { consult_cache: false, store_success: false, retry: false },
            "{mutation}"
        );
    }
    assert_eq!(proxy_plan("chat", true, true), ProxyPlan { consult_cache: true, store_success: true, retry: true });
    assert_eq!(proxy_plan("chat", false, true), ProxyPlan { consult_cache: true, store_success: true, retry: false });
    assert_eq!(proxy_plan("mcp-query", true, false), ProxyPlan { consult_cache: false, store_success: false, retry: true });
}

#[test]
fn the_read_identity_is_part_of_the_cache_key() {
    assert_eq!(cache_key_parts("chat", "q", "anonymous", Some("alice")), vec!["chat", "q", "anonymous", "alice"]);
    assert_eq!(cache_key_parts("chat", "q", "anonymous", None), vec!["chat", "q", "anonymous", ""]);
    assert_ne!(cache_key_parts("chat", "q", "anonymous", Some("alice")), cache_key_parts("chat", "q", "anonymous", Some("bob")));
}

#[test]
fn a_redirect_is_followed_only_on_the_origin_and_only_ten_times() {
    let endpoint = "https://platform.example.test:8443";
    assert_eq!(redirect_step(0, "https://platform.example.test:8443/v2", endpoint), RedirectStep::Follow);
    assert_eq!(redirect_step(9, "https://platform.example.test:8443/v2", endpoint), RedirectStep::Follow);
    assert_eq!(redirect_step(0, "https://elsewhere.example.test:8443/v2", endpoint), RedirectStep::Stop);
    assert_eq!(redirect_step(0, "http://platform.example.test:8443/v2", endpoint), RedirectStep::Stop);
    assert_eq!(redirect_step(0, "https://platform.example.test/v2", endpoint), RedirectStep::Stop);
    assert_eq!(MAX_REDIRECTS, 10);
    assert_eq!(redirect_step(10, "https://platform.example.test:8443/v2", endpoint), RedirectStep::TooMany);
    assert_eq!(redirect_step(10, "https://elsewhere.example.test/", endpoint), RedirectStep::TooMany);
}
