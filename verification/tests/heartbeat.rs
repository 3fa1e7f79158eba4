use axonflow_sdk_rust::config::Mode;
use axonflow_sdk_rust::heartbeat::{
    body_fits, bound_features, classify_deployment_mode, classify_host, community_override,
    endpoint_host, guard_interval_for, health_budget, health_url, learned_value,
    normalize_rustc_version, org_id_for, register_adapter, registered_features, remaining,
    stream_for_mode, telemetry_off_value, worth_posting, worth_probing, AdapterRegistry, Gate,
    HealthProbe, HeartbeatContext, HostFacts, IpAddress, DEFAULT_CHECKPOINT_URL,
    DEPLOYMENT_MODE_COMMUNITY_SAAS, DEPLOYMENT_MODE_SELF_HOSTED, DEPLOYMENT_MODE_UNKNOWN,
    ENDPOINT_TYPE_LOCALHOST, ENDPOINT_TYPE_PRIVATE, ENDPOINT_TYPE_REMOTE, HEALTH_BUDGET_CAP,
    HEARTBEAT_GUARD_INTERVAL, HEARTBEAT_INTERVAL, HEARTBEAT_TIMEOUT, MAX_FEATURES,
    MAX_FEATURE_BYTES, MAX_HEALTH_BODY_BYTES, MAX_RELAYED_VALUE_LEN, MIN_BUDGET,
    ORG_ID_LOCAL_DEV_SENTINEL, RUNTIME_VERSION_UNKNOWN, STREAM_SANDBOX,
};

#[test]
fn stream_for_mode_classification() {
    assert_eq!(stream_for_mode(&Mode::Sandbox), Some(STREAM_SANDBOX));
    assert_eq!(stream_for_mode(&Mode::Production), None);
}

#[test]
fn normalize_rustc_version_keeps_the_version_and_drops_the_build_id() {
    assert_eq!(normalize_rustc_version(Some("rustc 1.95.0 (59807616e 2026-04-14)")), "rustc 1.95.0");
    assert_eq!(
        normalize_rustc_version(Some("rustc 1.96.0-nightly (abcdef012 2026-05-01)")),
        "rustc 1.96.0-nightly"
    );
    assert_eq!(
        normalize_rustc_version(Some("rustc 1.95.0-beta.2 (deadbeef1 2026-03-01)")),
        "rustc 1.95.0-beta.2"
    );
    assert_eq!(normalize_rustc_version(Some("rustc 1.95.0")), "rustc 1.95.0");
    assert_eq!(normalize_rustc_version(Some("  rustc 1.95.0  ")), "rustc 1.95.0");
}

#[test]
fn normalize_rustc_version_refuses_anything_it_cannot_recognise() {
    assert_eq!(normalize_rustc_version(None), RUNTIME_VERSION_UNKNOWN);
    assert_eq!(normalize_rustc_version(Some("")), RUNTIME_VERSION_UNKNOWN);
    assert_eq!(normalize_rustc_version(Some("   ")), RUNTIME_VERSION_UNKNOWN);
    assert_eq!(normalize_rustc_version(Some("my-wrapper 1.0")), RUNTIME_VERSION_UNKNOWN);
    assert_eq!(normalize_rustc_version(Some("rustc")), RUNTIME_VERSION_UNKNOWN);
    assert_eq!(normalize_rustc_version(Some("rustc version-one")), RUNTIME_VERSION_UNKNOWN);
    let long = format!("rustc 1{}", "9".repeat(MAX_RELAYED_VALUE_LEN));
    assert_eq!(normalize_rustc_version(Some(&long)), RUNTIME_VERSION_UNKNOWN);
}

#[test]
fn a_version_token_at_the_cap_is_kept() {
    let at_cap = format!("rustc 1{}", "9".repeat(MAX_RELAYED_VALUE_LEN - 1));
    assert_eq!(normalize_rustc_version(Some(&at_cap)), format!("rustc 1{}", "9".repeat(MAX_RELAYED_VALUE_LEN - 1)));
    assert_eq!(normalize_rustc_version(Some("rustc\t1.2.3\tbuild")), "rustc 1.2.3");
}

#[test]
fn budget_split_leaves_room_for_the_post() {
    assert!(
        HEALTH_BUDGET_CAP + MIN_BUDGET < HEARTBEAT_TIMEOUT,
        "health cap {HEALTH_BUDGET_CAP:?} + floor {MIN_BUDGET:?} must leave the POST room inside {HEARTBEAT_TIMEOUT:?}"
    );
    assert!(HEALTH_BUDGET_CAP > MIN_BUDGET);
}

#[test]
fn the_guard_interval_widens_after_consecutive_failures() {
    assert_eq!(guard_interval_for(0), HEARTBEAT_GUARD_INTERVAL);
    assert_eq!(guard_interval_for(1), HEARTBEAT_GUARD_INTERVAL * 2);
    assert_eq!(guard_interval_for(2), HEARTBEAT_GUARD_INTERVAL * 4);
    assert!(guard_interval_for(3) > guard_interval_for(2));
    assert_eq!(guard_interval_for(20), HEARTBEAT_INTERVAL);
    assert_eq!(guard_interval_for(u32::MAX), HEARTBEAT_INTERVAL);
}

#[test]
fn the_widened_interval_actually_refuses_a_claim_at_the_call_site() {
    let just_past_the_base = HEARTBEAT_GUARD_INTERVAL + 1_000;
    let mut gate = Gate { last_checked: Some(0), in_flight: false, consecutive_failures: 1, last_delivered: None };
    assert!(
        !gate.claim_gate_slot(just_past_the_base),
        "after a failed attempt the throttle must wait longer than the base interval"
    );
    let mut clean = Gate { last_checked: Some(0), in_flight: false, consecutive_failures: 0, last_delivered: None };
    assert!(
        clean.claim_gate_slot(just_past_the_base),
        "with no failures the base interval must still let a claim through"
    );
}

#[test]
fn a_claim_coalesces_until_released() {
    let mut gate = Gate::new();
    assert!(gate.claim_gate_slot(10));
    assert_eq!(gate.last_checked, Some(10));
    assert!(gate.in_flight);
    assert!(!gate.claim_gate_slot(10 + HEARTBEAT_INTERVAL));
    gate.release_gate_slot();
    assert!(!gate.in_flight);
    assert!(!gate.claim_gate_slot(11), "the hour-long guard still holds");
    assert!(gate.claim_gate_slot(10 + HEARTBEAT_GUARD_INTERVAL));
}

#[test]
fn a_delivery_holds_the_seven_day_cadence_in_memory() {
    let mut gate = Gate::new();
    assert!(gate.claim_gate_slot(0));
    gate.record_attempt(true, 5);
    gate.release_gate_slot();
    assert_eq!(gate.consecutive_failures, 0);
    assert_eq!(gate.last_delivered, Some(5));
    assert!(!gate.claim_gate_slot(5 + HEARTBEAT_GUARD_INTERVAL * 2));
    assert!(gate.claim_gate_slot(5 + HEARTBEAT_INTERVAL));
}

#[test]
fn failures_accumulate_and_saturate() {
    let mut gate = Gate::new();
    gate.record_attempt(false, 0);
    gate.record_attempt(false, 0);
    assert_eq!(gate.consecutive_failures, 2);
    gate.consecutive_failures = u32::MAX;
    gate.record_attempt(false, 0);
    assert_eq!(gate.consecutive_failures, u32::MAX);
    gate.record_attempt(true, 7);
    assert_eq!(gate.consecutive_failures, 0);
}

#[test]
fn the_budget_is_shared_and_saturates() {
    assert_eq!(remaining(3_000, 1_000), 2_000);
    assert_eq!(remaining(1_000, 3_000), 0);
    assert_eq!(health_budget(HEARTBEAT_TIMEOUT), HEALTH_BUDGET_CAP);
    assert_eq!(health_budget(500), 500);
    assert!(worth_probing(101));
    assert!(!worth_probing(MIN_BUDGET));
    assert!(worth_posting(MIN_BUDGET));
    assert!(!worth_posting(MIN_BUDGET - 1));
}

#[test]
fn telemetry_off_recognizes_off_value() {
    assert!(telemetry_off_value(Some("off")));
    assert!(telemetry_off_value(Some("OFF")));
    assert!(telemetry_off_value(Some("  off  ")));
    assert!(!telemetry_off_value(Some("")));
    assert!(!telemetry_off_value(Some("on")));
    assert!(!telemetry_off_value(None));
}

#[test]
fn telemetry_org_id_env_wins() {
    assert_eq!(org_id_for(Some("acme-corp")), "acme-corp");
}

#[test]
fn telemetry_org_id_unset_returns_sentinel() {
    assert_eq!(org_id_for(None), ORG_ID_LOCAL_DEV_SENTINEL);
    assert_eq!(ORG_ID_LOCAL_DEV_SENTINEL, "local-dev-org");
}

#[test]
fn telemetry_org_id_empty_falls_through_to_sentinel() {
    assert_eq!(org_id_for(Some("")), ORG_ID_LOCAL_DEV_SENTINEL);
}

#[test]
fn telemetry_org_id_cs_prefixed_passes_through() {
    let cs_id = "cs_e3a4b5c6-d7e8-4f90-a1b2-c3d4e5f6a7b8";
    assert_eq!(org_id_for(Some(cs_id)), cs_id);
}

fn classify(endpoint: &str, ip: Option<IpAddress>) -> &'static str {
    match endpoint_host(endpoint) {
        None => "unknown",
        Some(h) => classify_host(&h, ip),
    }
}

#[test]
fn classify_endpoint_localhost_variants() {
    assert_eq!(classify("http://localhost:8080", None), ENDPOINT_TYPE_LOCALHOST);
    assert_eq!(classify("https://127.0.0.1:8080", Some(IpAddress::V4([127, 0, 0, 1]))), ENDPOINT_TYPE_LOCALHOST);
    assert_eq!(classify("http://0.0.0.0:9090", Some(IpAddress::V4([0, 0, 0, 0]))), ENDPOINT_TYPE_LOCALHOST);
    assert_eq!(classify("http://my.localhost", None), ENDPOINT_TYPE_LOCALHOST);
    assert_eq!(
        classify("http://[::1]:8080", Some(IpAddress::V6([0, 0, 0, 0, 0, 0, 0, 1]))),
        ENDPOINT_TYPE_LOCALHOST
    );
    assert_eq!(endpoint_host("http://[::1]:8080").as_deref(), Some("::1"));
    assert_eq!(endpoint_host("HTTP://LOCALHOST:8080").as_deref(), Some("localhost"));
}

#[test]
fn classify_endpoint_private_variants() {
    assert_eq!(classify("http://10.1.2.3", Some(IpAddress::V4([10, 1, 2, 3]))), ENDPOINT_TYPE_PRIVATE);
    assert_eq!(classify("http://192.168.1.1", Some(IpAddress::V4([192, 168, 1, 1]))), ENDPOINT_TYPE_PRIVATE);
    assert_eq!(classify("http://172.16.0.1", Some(IpAddress::V4([172, 16, 0, 1]))), ENDPOINT_TYPE_PRIVATE);
    assert_eq!(classify("http://169.254.1.1", Some(IpAddress::V4([169, 254, 1, 1]))), ENDPOINT_TYPE_PRIVATE);
    assert_eq!(classify("http://api.local", None), ENDPOINT_TYPE_PRIVATE);
    assert_eq!(classify("http://api.internal", None), ENDPOINT_TYPE_PRIVATE);
    assert_eq!(classify("http://box.lan", None), ENDPOINT_TYPE_PRIVATE);
    assert_eq!(classify("http://wiki.intranet", None), ENDPOINT_TYPE_PRIVATE);
    assert_eq!(classify("http://[fd00::1]", Some(IpAddress::V6([0xfd00, 0, 0, 0, 0, 0, 0, 1]))), ENDPOINT_TYPE_PRIVATE);
    assert_eq!(classify("http://[fe80::1]", Some(IpAddress::V6([0xfe80, 0, 0, 0, 0, 0, 0, 1]))), ENDPOINT_TYPE_PRIVATE);
}

#[test]
fn classify_endpoint_remote() {
    assert_eq!(classify("https://api.example.com", None), ENDPOINT_TYPE_REMOTE);
    assert_eq!(classify("https://203.0.113.5", Some(IpAddress::V4([203, 0, 113, 5]))), ENDPOINT_TYPE_REMOTE);
    assert_eq!(classify("http://172.32.0.1", Some(IpAddress::V4([172, 32, 0, 1]))), ENDPOINT_TYPE_REMOTE);
}

#[test]
fn classify_endpoint_unknown() {
    assert_eq!(endpoint_host(""), None);
    assert_eq!(endpoint_host("not a url"), None);
}

#[test]
fn classify_deployment_mode_v1_schema() {
    assert_eq!(classify_deployment_mode("", false), DEPLOYMENT_MODE_UNKNOWN);
    assert_eq!(classify_deployment_mode("not a url", false), DEPLOYMENT_MODE_UNKNOWN);
    assert_eq!(classify_deployment_mode("https://api.example.com", false), DEPLOYMENT_MODE_SELF_HOSTED);
    assert_eq!(classify_deployment_mode("https://try.getaxonflow.com", false), DEPLOYMENT_MODE_COMMUNITY_SAAS);
    assert_eq!(classify_deployment_mode("https://eu.try.getaxonflow.com", false), DEPLOYMENT_MODE_COMMUNITY_SAAS);
    assert!(community_override(Some("1")));
    assert!(!community_override(Some("true")));
    assert!(!community_override(None));
    assert_eq!(classify_deployment_mode("https://my-proxy.example.com", true), DEPLOYMENT_MODE_COMMUNITY_SAAS);
}

#[test]
fn learned_value_accepts_only_a_present_non_empty_bounded_string() {
    assert_eq!(learned_value(Some("10.4.0".to_string())), Some("10.4.0".to_string()));
    assert_eq!(learned_value(Some("a".repeat(MAX_RELAYED_VALUE_LEN))), Some("a".repeat(MAX_RELAYED_VALUE_LEN)));
    assert_eq!(learned_value(Some(String::new())), None);
    assert_eq!(learned_value(Some("a".repeat(MAX_RELAYED_VALUE_LEN + 1))), None);
    assert_eq!(learned_value(None), None);
}

#[test]
fn the_probe_reads_each_member_on_its_own() {
    let body = br#"{"version":"10.4.0","tier":42,"edition":"","deployment_mode":"self_hosted","extra":{"x":1}}"#;
    let probe = HealthProbe::from_body(body);
    assert_eq!(probe.platform_version.as_deref(), Some("10.4.0"));
    assert_eq!(probe.license_tier, None);
    assert_eq!(probe.edition, None);
    assert_eq!(probe.deployment_mode.as_deref(), Some("self_hosted"));
    let nothing = HealthProbe::from_body(b"not json");
    assert_eq!(nothing, HealthProbe::nothing());
    let long = format!(r#"{{"tier":"{}"}}"#, "E".repeat(MAX_RELAYED_VALUE_LEN + 1));
    assert_eq!(HealthProbe::from_body(long.as_bytes()).license_tier, None);
    let starting = HealthProbe::from_body(br#"{"tier":"starting"}"#);
    assert_eq!(starting.license_tier.as_deref(), Some("starting"));
}

#[test]
fn the_health_url_and_the_body_cap() {
    assert_eq!(health_url("http://localhost:8080/").as_deref(), Some("http://localhost:8080/health"));
    assert_eq!(health_url("  http://h//  ").as_deref(), Some("http://h/health"));
    assert_eq!(health_url("   "), None);
    assert_eq!(health_url(""), None);
    assert!(body_fits(0, MAX_HEALTH_BODY_BYTES));
    assert!(!body_fits(1, MAX_HEALTH_BODY_BYTES));
}

#[test]
fn adapters_register_once_normalised_and_in_order() {
    let mut registry = AdapterRegistry::new();
    register_adapter(&mut registry, "  LangChain ");
    register_adapter(&mut registry, "langchain");
    register_adapter(&mut registry, "crewai");
    register_adapter(&mut registry, "   ");
    register_adapter(&mut registry, &"x".repeat(MAX_RELAYED_VALUE_LEN + 1));
    register_adapter(&mut registry, &"y".repeat(MAX_RELAYED_VALUE_LEN));
    let names: Vec<&str> = registry.names_in_order().iter().map(|s| s.as_str()).collect();
    assert_eq!(names, vec!["crewai".to_string(), "langchain".to_string(), "y".repeat(MAX_RELAYED_VALUE_LEN)]);
    let features = registered_features(&registry);
    assert_eq!(features[0], "adapter:crewai");
    assert_eq!(features[1], "adapter:langchain");
    assert_eq!(features.len(), 3);
}

#[test]
fn the_thirty_third_adapter_does_not_reach_the_wire() {
    let mut registry = AdapterRegistry::new();
    for i in 0..33 {
        register_adapter(&mut registry, &format!("a{i:02}"));
    }
    let features = registered_features(&registry);
    assert_eq!(features.len(), MAX_FEATURES);
    assert_eq!(features[0], "adapter:a00");
    assert_eq!(features[31], "adapter:a31");
}

#[test]
fn bound_features_drops_over_long_entries_whole() {
    let features = vec!["ok".to_string(), "z".repeat(MAX_FEATURE_BYTES + 1), "z".repeat(MAX_FEATURE_BYTES)];
    assert_eq!(bound_features(features), vec!["ok".to_string(), "z".repeat(MAX_FEATURE_BYTES)]);
}

#[test]
fn the_payload_carries_the_snapshot_and_the_relay() {
    let ctx = HeartbeatContext::new(
        "http://localhost:8080",
        &Mode::Sandbox,
        None,
        DEPLOYMENT_MODE_SELF_HOSTED,
        ENDPOINT_TYPE_LOCALHOST,
        None,
    );
    assert_eq!(ctx.checkpoint_url, DEFAULT_CHECKPOINT_URL);
    assert_eq!(ctx.stream, Some(STREAM_SANDBOX));
    assert_eq!(ctx.org_id, ORG_ID_LOCAL_DEV_SENTINEL);
    let probe = HealthProbe::from_body(br#"{"version":"10.4.0"}"#);
    let host = HostFacts {
        sdk_version: "0.11.0".into(),
        os: "linux".into(),
        arch: "x86_64".into(),
        runtime_version: "rustc 1.95.0".into(),
        instance_id: "i-1".into(),
    };
    let payload = ctx.payload(probe, host, Vec::new());
    assert_eq!(payload.telemetry_type, "sdk");
    assert_eq!(payload.sdk, "rust");
    assert_eq!(payload.platform_version.as_deref(), Some("10.4.0"));
    assert_eq!(payload.license_tier, None);
    assert!(payload.features.is_empty());
    let production = HeartbeatContext::new("x", &Mode::Production, Some("http://c"), DEPLOYMENT_MODE_UNKNOWN, "unknown", Some("acme"));
    assert_eq!(production.stream, None);
    assert_eq!(production.checkpoint_url, "http://c");
    assert_eq!(production.org_id, "acme");
}

#[test]
fn learned_value_drops_an_over_long_value_whole_rather_than_truncating() {
    let long = "E".repeat(MAX_RELAYED_VALUE_LEN + 1);
    let body = format!(r#"{{"tier":"{long}"}}"#);
    // Not a truncated value: a truncated string is a claim the platform never
    // made.
    assert_eq!(HealthProbe::from_body(body.as_bytes()).license_tier, None);
    assert_eq!(learned_value(Some(long)), None);
}
