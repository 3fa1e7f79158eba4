use axonflow_sdk_rust::config::{AxonFlowConfig, CacheConfig, Mode, RetryConfig};
use axonflow_sdk_rust::error::AxonFlowError;
use axonflow_sdk_rust::interceptors::anthropic::{
    message_summary, message_token_usage, messages_prompt_text, AnthropicContent, AnthropicMessage,
    AnthropicResponse, AnthropicUsage,
};
use axonflow_sdk_rust::interceptors::openai::{
    chat_prompt_text, chat_summary, chat_token_usage, ChatCompletionChoice, ChatCompletionResponse,
    ChatMessage, Usage,
};
use axonflow_sdk_rust::interceptors::{blocked_error, response_summary, wrapped_call, WrappedCall};
use axonflow_sdk_rust::read_identity::{read_scope_refusal, refuse_vacuous_scoped_page, ReadScope, ReadScopeRefusal};
use axonflow_sdk_rust::typed_policies::{activation_reason, active_outcome, object_outcome, refusal, retry_after, RefusalBody, TypedPolicyRefusal};
use axonflow_sdk_rust::types::agent::transfer_basis;
use axonflow_sdk_rust::types::policies::PolicyCategory;

#[test]
fn transfer_basis_constants_wire_values() {
    assert_eq!(transfer_basis::ADEQUACY, "adequacy");
    assert_eq!(transfer_basis::SAFEGUARDS, "safeguards");
    assert_eq!(transfer_basis::PASAL_56B_DPA, "pasal_56b_dpa");
    assert_eq!(transfer_basis::CONSENT, "consent");
}

#[test]
fn config_defaults_and_builders() {
    let c = AxonFlowConfig::new("http://x");
    assert_eq!(c.endpoint, "http://x");
    assert_eq!(c.timeout, 60_000);
    assert_eq!(c.map_timeout, 120_000);
    assert_eq!(c.mode, Mode::Production);
    assert_eq!(c.retry, RetryConfig { enabled: true, max_attempts: 3, initial_delay: 1000 });
    assert_eq!(c.cache, CacheConfig { enabled: true, ttl: 60_000, max_capacity: 10_000 });
    let s = AxonFlowConfig::sandbox("id", "secret");
    assert_eq!(s.endpoint, "http://localhost:8080");
    assert_eq!(s.mode, Mode::Sandbox);
    assert!(s.debug);
    assert_eq!(s.client_id.as_deref(), Some("id"));
    let b = AxonFlowConfig::new("http://x")
        .with_auth("a", "b")
        .with_license_key("k")
        .with_mode(Mode::Sandbox)
        .with_timeout(5)
        .with_map_timeout(6)
        .with_retry(RetryConfig { enabled: false, max_attempts: 1, initial_delay: 0 })
        .with_cache(CacheConfig { enabled: false, ttl: 1, max_capacity: 2 });
    assert_eq!(b.client_secret.as_deref(), Some("b"));
    assert_eq!(b.license_key.as_deref(), Some("k"));
    assert_eq!((b.timeout, b.map_timeout), (5, 6));
    assert!(!b.retry.enabled && !b.cache.enabled);
    assert_eq!(b.endpoint, "http://x");
}

#[test]
fn the_rendering_redacts_every_credential() {
    let mut c = AxonFlowConfig::new("http://localhost:8080").with_auth("org-1", "SECRET-VALUE").with_license_key("LICENSE-VALUE");
    c.user_token = Some("TOKEN-VALUE".into());
    let text = c.debug_text();
    assert_eq!(
        text,
        "AxonFlowConfig { endpoint: \"http://localhost:8080\", client_id: Some(\"org-1\"), client_secret: Some(\"[REDACTED]\"), \
         user_token: Some(\"[REDACTED]\"), license_key: Some(\"[REDACTED]\"), mode: Production, debug: false, timeout: 60s, \
         map_timeout: 120s, retry: RetryConfig { enabled: true, max_attempts: 3, initial_delay: 1s }, \
         cache: CacheConfig { enabled: true, ttl: 60s, max_capacity: 10000 }, insecure_skip_tls_verify: false }"
    );
    for secret in ["SECRET-VALUE", "LICENSE-VALUE", "TOKEN-VALUE"] {
        assert!(!text.contains(secret), "{secret} reached the rendering");
    }
    assert!(AxonFlowConfig::new("http://x").debug_text().contains("client_secret: None"));
}

#[test]
fn durations_render_as_duration_debug_does() {
    let rendered = |ms: u64| AxonFlowConfig::new("http://x").with_timeout(ms).debug_text();
    for (ms, text) in [(0, "0ns"), (250, "250ms"), (1_000, "1s"), (1_500, "1.5s"), (1_050, "1.05s"), (1_001, "1.001s"), (61_230, "61.23s")] {
        assert!(rendered(ms).contains(&format!("timeout: {text},")), "{ms} ms: {}", rendered(ms));
        assert_eq!(format!("{:?}", std::time::Duration::from_millis(ms)), text);
    }
}

#[test]
fn policy_categories_round_trip() {
    for value in PolicyCategory::KNOWN_WIRE_VALUES {
        let category = PolicyCategory::from(value.to_string());
        assert!(category.is_known(), "{value} must be known");
        assert_eq!(category.as_str(), value);
        assert_eq!(category.into_wire(), value);
    }
    for (value, variant) in [
        ("security-dangerous", PolicyCategory::SecurityDangerous),
        ("compliance-euaiact", PolicyCategory::ComplianceEuaiact),
        ("dangerous_queries", PolicyCategory::DangerousQueries),
        ("pii_detection", PolicyCategory::PiiDetection),
        ("sql_injection", PolicyCategory::SqlInjection),
    ] {
        assert_eq!(PolicyCategory::from_wire(value.to_string()), variant, "{value}");
    }
    let parsed = PolicyCategory::from_wire("a-category-from-a-later-platform".to_string());
    assert_eq!(parsed, PolicyCategory::Unknown("a-category-from-a-later-platform".into()));
    assert!(!parsed.is_known());
    assert_eq!(parsed.to_string(), "a-category-from-a-later-platform");
    assert_eq!(PolicyCategory::PiiIndonesia.as_str(), "pii-indonesia");
    assert_eq!(PolicyCategory::KNOWN_WIRE_VALUES.len(), 26);
}

#[test]
fn read_scope_parsing_ignores_case_and_padding() {
    assert_eq!(ReadScope::parse(None), ReadScope::Absent);
    assert_eq!(ReadScope::parse(Some("")), ReadScope::Absent);
    assert_eq!(ReadScope::parse(Some("  ")), ReadScope::Absent);
    assert_eq!(ReadScope::parse(Some("tenant")), ReadScope::Tenant);
    assert_eq!(ReadScope::parse(Some(" Own-Rows ")), ReadScope::OwnRows);
    assert_eq!(ReadScope::parse(Some("NONE")), ReadScope::NoIdentity);
    assert_eq!(ReadScope::parse(Some(" Team ")), ReadScope::Other("team".into()));
    assert_eq!(ReadScope::NoIdentity.to_string(), "none");
    assert_eq!(ReadScope::Absent.to_string(), "");
}

#[test]
fn only_the_scopes_that_explain_an_empty_read_refuse() {
    let r = read_scope_refusal("decision", Some("dec-1"), ReadScope::NoIdentity, 404).expect("none explains it");
    assert!(r.identity_missing());
    assert_eq!(r.subject(), "decision \"dec-1\"");
    let text = r.to_string();
    assert!(text.starts_with("HTTP 404: decision \"dec-1\": the platform resolved no per-user identity"), "{text}");
    assert!(text.contains("X-Axonflow-Read-Scope: none"));
    let own = read_scope_refusal("decision", None, ReadScope::OwnRows, 404).expect("own rows");
    assert!(!own.identity_missing());
    assert!(own.to_string().starts_with("HTTP 404: decision was not found among the rows this identity can see"));
    assert!(read_scope_refusal("decision", None, ReadScope::Tenant, 404).is_none());
    assert!(read_scope_refusal("decision", None, ReadScope::Absent, 404).is_none());
    assert!(refuse_vacuous_scoped_page("decisions", ReadScope::NoIdentity, 200, 0).is_some());
    assert!(refuse_vacuous_scoped_page("decisions", ReadScope::NoIdentity, 200, 3).is_none());
    assert!(refuse_vacuous_scoped_page("decisions", ReadScope::OwnRows, 200, 0).is_none());
    let wrapped = AxonFlowError::ReadScope(Box::new(ReadScopeRefusal {
        resource: "decisions".into(),
        identifier: None,
        scope: ReadScope::NoIdentity,
        status: 200,
    }));
    assert!(wrapped.to_string().starts_with("HTTP 200: decisions: "));
}

#[test]
fn typed_policy_refusals() {
    let body = |error: Option<&str>| RefusalBody { error: error.map(str::to_string), reason: Some("tier_limit".into()), code: Some(String::new()), findings: vec![] };
    match refusal(402, Some(30), body(Some("over the cap")), "/publish") {
        AxonFlowError::TypedPolicyRefusal(r) => {
            assert_eq!(r.status, 402);
            assert_eq!(r.reason.as_deref(), Some("tier_limit"));
            assert_eq!(r.code, None, "an empty member is not a value");
            assert_eq!(r.retry_after, Some(30));
            assert_eq!(r.to_string(), "typed policy request refused (HTTP 402, tier_limit): over the cap");
        },
        other => panic!("{other:?}"),
    }
    // Retryable exactly when the platform said when to retry.
    assert!(refusal(503, Some(5), body(Some("busy")), "/publish").is_retryable());
    assert!(!refusal(503, None, body(Some("busy")), "/publish").is_retryable());
    match refusal(401, None, body(None), "/edition") {
        AxonFlowError::ApiError { status: 401, message } => assert_eq!(message, "HTTP 401 from /edition"),
        other => panic!("{other:?}"),
    }
    assert_eq!(retry_after(Some("120")), Some(120));
    assert_eq!(retry_after(Some("")), None);
    assert_eq!(retry_after(Some("1.5")), None);
    assert_eq!(retry_after(Some("-1")), None);
    assert_eq!(retry_after(Some("18446744073709551616")), None);
    assert_eq!(retry_after(Some("18446744073709551615")), Some(u64::MAX));
    assert_eq!(retry_after(None), None);
    assert_eq!(activation_reason(Some("")), None);
    assert_eq!(activation_reason(Some("why")), Some("why"));
    assert!(object_outcome(200, None, body(None), true, "/edition").is_ok());
    match object_outcome(200, None, body(None), false, "/edition") {
        Err(AxonFlowError::ApiError { status: 200, message }) => {
            assert_eq!(message, "/api/v1/typed-policies/edition answered 200 with a body that is not an object")
        },
        other => panic!("{other:?}"),
    }
    let no_reason = TypedPolicyRefusal { status: 409, reason: None, code: None, message: "m".into(), findings: vec![], retry_after: None };
    assert_eq!(no_reason.to_string(), "typed policy request refused (HTTP 409): m");
}

#[test]
fn wrapped_provider_calls() {
    let messages = vec![
        ChatMessage { role: "system".into(), content: "be brief".into() },
        ChatMessage { role: "user".into(), content: "hi".into() },
    ];
    assert_eq!(chat_prompt_text(&messages), "system: be brief\nuser: hi");
    assert_eq!(chat_prompt_text(&[]), "");
    let anthropic = vec![AnthropicMessage { role: "user".into(), content: "hello".into() }];
    assert_eq!(messages_prompt_text(Some("sys"), &anthropic), "System: sys\nuser: hello");
    assert_eq!(messages_prompt_text(None, &anthropic), "user: hello");
    let long = "é".repeat(150);
    assert_eq!(response_summary(&long), format!("{}...", "é".repeat(100)));
    assert_eq!(response_summary("short"), "short");
    assert_eq!(response_summary(&"x".repeat(100)), "x".repeat(100));
    match blocked_error(None) {
        AxonFlowError::ApiError { status: 403, message } => assert_eq!(message, "Blocked by policy"),
        other => panic!("{other:?}"),
    }
    let usage = Usage { prompt_tokens: 1, completion_tokens: 2, total_tokens: 3 };
    let completion = ChatCompletionResponse {
        id: "c".into(),
        object: "chat.completion".into(),
        created: 0,
        model: "m".into(),
        choices: vec![ChatCompletionChoice { index: 0, message: ChatMessage { role: "assistant".into(), content: "answer".into() }, finish_reason: "stop".into() }],
        usage,
    };
    assert_eq!(chat_summary(&completion), "answer");
    assert_eq!(chat_token_usage(&usage).total_tokens, 3);
    let response = AnthropicResponse {
        id: "a".into(),
        type_: "message".into(),
        role: "assistant".into(),
        content: vec![AnthropicContent { type_: "text".into(), text: "reply".into() }],
        model: "model-a".into(),
        usage: AnthropicUsage { input_tokens: 4, output_tokens: 5 },
    };
    assert_eq!(message_summary(&response), "reply");
    assert_eq!(message_token_usage(&response.usage).total_tokens, 9);
}

#[test]
fn errors_render_and_classify() {
    assert_eq!(AxonFlowError::ApiError { status: 502, message: "bad".into() }.to_string(), "API error (502): bad");
    assert_eq!(AxonFlowError::ConfigError("c".into()).to_string(), "Configuration error: c");
    assert_eq!(AxonFlowError::ObligationNotFulfillable("o".into()).to_string(), "Obligation not engine-fulfillable: o");
    let timeout = AxonFlowError::HttpError { timeout: true, connect: false, status: None, message: "t".into() };
    assert!(timeout.is_retryable());
    assert!(timeout.is_fail_open_eligible());
    assert!(AxonFlowError::ApiError { status: 429, message: String::new() }.is_retryable());
    assert!(!AxonFlowError::ApiError { status: 404, message: String::new() }.is_retryable());
    assert!(!AxonFlowError::SerdeError("s".into()).is_retryable());
}

#[test]
fn errors_compare_by_kind_and_content() {
    let api = |status: u16, m: &str| AxonFlowError::ApiError { status, message: m.into() };
    assert!(api(404, "x") == api(404, "x"));
    assert!(api(404, "x") != api(404, "y"));
    assert!(api(404, "x") != api(500, "x"));
    assert!(AxonFlowError::ConfigError("c".into()) == AxonFlowError::ConfigError("c".into()));
    assert!(AxonFlowError::ConfigError("c".into()) != AxonFlowError::Unavailable("c".into()));
    let http = |timeout: bool| AxonFlowError::HttpError { timeout, connect: false, status: Some(503), message: "m".into() };
    assert!(http(true) == http(true));
    assert!(http(true) != http(false));
    // A kind with no comparison never compares equal, not even to itself.
    assert!(AxonFlowError::ObligationNotFulfillable("o".into()) != AxonFlowError::ObligationNotFulfillable("o".into()));
}

#[test]
fn nothing_active_is_the_only_404_that_reads_as_none() {
    let body = |reason: Option<&str>| RefusalBody { error: None, reason: reason.map(str::to_string), code: None, findings: vec![] };
    assert_eq!(active_outcome(404, None, body(Some("nothing_active")), false).unwrap(), false);
    match active_outcome(404, None, body(Some("not_found")), false) {
        Err(AxonFlowError::TypedPolicyRefusal(r)) => {
            assert_eq!(r.status, 404);
            assert_eq!(r.message, "HTTP 404 from /active");
        },
        other => panic!("{other:?}"),
    }
    assert!(matches!(active_outcome(404, None, body(None), false), Err(AxonFlowError::TypedPolicyRefusal(_))));
    assert_eq!(active_outcome(200, None, body(None), true).unwrap(), true);
    match active_outcome(200, None, body(None), false) {
        Err(AxonFlowError::ApiError { status: 200, message }) => {
            assert_eq!(message, "/api/v1/typed-policies/active answered 200 with a body that is not an object")
        },
        other => panic!("{other:?}"),
    }
}

#[test]
fn a_blocked_call_never_reaches_the_provider() {
    match wrapped_call(true, Some("PII".into()), Some("req-1".into())) {
        WrappedCall::Refuse(AxonFlowError::ApiError { status: 403, message }) => assert_eq!(message, "PII"),
        other => panic!("{other:?}"),
    }
    match wrapped_call(true, None, None) {
        WrappedCall::Refuse(AxonFlowError::ApiError { status: 403, message }) => assert_eq!(message, "Blocked by policy"),
        other => panic!("{other:?}"),
    }
    match wrapped_call(false, None, Some("req-1".into())) {
        WrappedCall::Forward { audit_as } => assert_eq!(audit_as.as_deref(), Some("req-1")),
        other => panic!("{other:?}"),
    }
    assert!(matches!(wrapped_call(false, None, None), WrappedCall::Forward { audit_as: None }));
}
