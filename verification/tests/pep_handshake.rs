use axonflow_sdk_rust::authzen::types::AuthZenObligationType;
use axonflow_sdk_rust::config::AxonFlowConfig;
use axonflow_sdk_rust::error::AxonFlowError;
use axonflow_sdk_rust::pep_handshake::{
    handshake_for, PEPCapability, PEPHandshake, PEPHandshakeError, MAX_IDENTIFIER_BYTES,
    MAX_PEP_HANDSHAKE_CAPABILITIES,
};
use base64::engine::general_purpose::URL_SAFE_NO_PAD;
use base64::Engine;
use serde_json::Value;

fn caps(pairs: &[(&str, u32)]) -> Vec<PEPCapability> {
    pairs.iter().map(|(t, v)| PEPCapability::new(t, *v)).collect()
}

fn refused(pep_id: &str, audience: &str, capabilities: Vec<PEPCapability>) -> PEPHandshakeError {
    match PEPHandshake::new(pep_id, audience, capabilities) {
        Ok(_) => panic!("the platform refuses this declaration, so construction must too"),
        Err(e) => e,
    }
}

fn distinct(n: u32) -> Vec<PEPCapability> {
    (1..=n).map(|v| PEPCapability::new("field_redact", v)).collect()
}

#[test]
fn pep_id_at_127_and_128_bytes_is_accepted() {
    assert!(PEPHandshake::new(&"g".repeat(127), "a", Vec::new()).is_ok(), "127 bytes");
    assert!(PEPHandshake::new(&"g".repeat(128), "a", Vec::new()).is_ok(), "128 bytes");
}

#[test]
fn pep_id_at_129_bytes_is_refused() {
    assert_eq!(refused(&"g".repeat(129), "a", Vec::new()).pointer(), "/pep_id");
}

#[test]
fn pep_id_empty_is_refused() {
    assert_eq!(refused("", "a", Vec::new()).pointer(), "/pep_id");
}

#[test]
fn pep_id_grammar_is_the_platforms() {
    for bad in ["Gateway", "client:gw", "-gw", ".gw", "_gw", "gw\n", "gw/1", "g w", "café"] {
        assert_eq!(refused(bad, "a", Vec::new()).pointer(), "/pep_id", "{bad:?}");
    }
    for good in ["a", "0", "gw.request-1", "gw_1", "9-a.b_c"] {
        assert!(PEPHandshake::new(good, "a", Vec::new()).is_ok(), "{good:?}");
    }
}

#[test]
fn audience_at_127_and_128_bytes_is_accepted() {
    assert!(PEPHandshake::new("gw", &"A".repeat(127), Vec::new()).is_ok(), "127 bytes");
    assert!(PEPHandshake::new("gw", &"A".repeat(128), Vec::new()).is_ok(), "128 bytes");
}

#[test]
fn audience_at_129_bytes_is_refused() {
    assert_eq!(refused("gw", &"a".repeat(129), Vec::new()).pointer(), "/audience");
}

#[test]
fn audience_empty_is_refused() {
    assert_eq!(refused("gw", "", Vec::new()).pointer(), "/audience");
}

#[test]
fn audience_grammar_is_the_platforms() {
    for bad in ["/aud", ":aud", "-aud", "a b", "aud\n", "aud?x", "aud#x", "ünïcode"] {
        assert_eq!(refused("gw", bad, Vec::new()).pointer(), "/audience", "{bad:?}");
    }
    for good in ["A", "https://api.example.com/v1", "urn:example:aud", "Mixed.Case_aud-1"] {
        assert!(PEPHandshake::new("gw", good, Vec::new()).is_ok(), "{good:?}");
    }
}

#[test]
fn pep_id_is_reported_before_audience() {
    assert_eq!(refused("", "", Vec::new()).pointer(), "/pep_id");
}

#[test]
fn zero_one_and_sixty_four_capabilities_are_accepted() {
    for n in [0, 1, 64] {
        let declared = match PEPHandshake::new("gw", "a", distinct(n)) {
            Ok(d) => d,
            Err(e) => panic!("{n} capabilities: {}", e.to_string()),
        };
        assert_eq!(declared.capabilities().len(), n as usize);
    }
}

#[test]
fn sixty_five_capabilities_are_refused() {
    let e = refused("gw", "a", distinct(65));
    assert_eq!(e.pointer(), "/capabilities");
    assert!(e.message().contains("65"), "{}", e.to_string());
}

#[test]
fn the_count_is_checked_before_the_entries() {
    let mut over = distinct(64);
    over.push(PEPCapability::new("redact_pii", 1));
    let e = refused("gw", "a", over);
    assert!(e.message().contains("at most 64"), "{}", e.to_string());
}

#[test]
fn a_repeated_capability_is_refused() {
    let e = refused("gw", "a", caps(&[("field_redact", 1), ("field_mask", 1), ("field_redact", 1)]));
    assert_eq!(e.pointer(), "/capabilities");
    assert!(e.message().contains("more than once"), "{}", e.to_string());
}

#[test]
fn the_same_type_at_two_versions_is_not_a_repeat() {
    assert!(PEPHandshake::new("gw", "a", caps(&[("field_redact", 1), ("field_redact", 2)])).is_ok());
}

#[test]
fn version_zero_is_refused() {
    let e = refused("gw", "a", caps(&[("field_redact", 0)]));
    assert_eq!(e.pointer(), "/capabilities");
    assert!(e.message().contains("version 0"), "{}", e.to_string());
}

#[test]
fn version_one_is_accepted() {
    assert!(PEPHandshake::new("gw", "a", caps(&[("field_redact", 1)])).is_ok());
}

#[test]
fn an_obligation_type_the_platform_cannot_match_is_refused() {
    for bad in ["redact_pii", "Field_Redact", "field_redact ", ""] {
        let e = refused("gw", "a", caps(&[(bad, 1)]));
        assert_eq!(e.pointer(), "/capabilities", "{bad:?}");
        assert!(e.message().contains("not one of"), "{bad:?}: {}", e.to_string());
    }
}

#[test]
fn every_obligation_type_this_build_declares_is_accepted() {
    for kind in AuthZenObligationType::KNOWN_WIRE_VALUES {
        assert!(PEPHandshake::new("gw", "a", caps(&[(kind, 1)])).is_ok(), "{kind}");
    }
}

#[test]
fn the_vocabulary_is_the_platforms_obligation_types() {
    let platform = [
        "approval_challenge",
        "field_annotate",
        "field_hash",
        "field_mask",
        "field_redact",
        "field_remove",
        "field_tokenize",
        "immutable_audit",
        "notification",
        "quota_reservation",
        "response_filter",
        "route_restriction",
        "schema_transform",
        "step_up_authentication",
    ];
    let mut known = AuthZenObligationType::KNOWN_WIRE_VALUES.to_vec();
    known.sort_unstable();
    assert_eq!(known, platform);
}

#[test]
fn the_error_names_the_header_and_the_member() {
    let e = refused("Gateway", "a", Vec::new());
    assert!(e.to_string().starts_with("X-Axonflow-PEP-Handshake: /pep_id: "), "{}", e.to_string());
    let whole = PEPHandshakeError::new("", "encodes to 4098 bytes".into());
    assert_eq!(whole.to_string(), "X-Axonflow-PEP-Handshake: encodes to 4098 bytes");
}

#[test]
fn the_order_of_declaration_does_not_change_the_bytes() {
    let given = [("notification", 3), ("field_redact", 2), ("approval_challenge", 1)];
    let mut reversed = given;
    reversed.reverse();
    let one = PEPHandshake::new("gw", "a", caps(&given)).unwrap();
    let other = PEPHandshake::new("gw", "a", caps(&reversed)).unwrap();
    assert_eq!(one.header_value(), other.header_value());
    assert_eq!(one, other);
    let mut sorted = caps(&given);
    sorted.sort();
    assert_eq!(one.capabilities(), sorted.as_slice());
}

#[test]
fn the_header_is_unpadded_base64url_of_the_canonical_document() {
    let declared = PEPHandshake::new(
        "gw",
        "https://pep.example.test",
        caps(&[("field_redact", 2), ("field_redact", 1)]),
    )
    .unwrap();
    let value = declared.header_value();
    assert!(!value.contains(['=', '+', '/']), "{value}");
    // base64url of the canonical compact document.
    assert_eq!(
        value,
        "eyJwcm9maWxlX3ZlcnNpb24iOjEsInBlcF9pZCI6Imd3IiwiYXVkaWVuY2UiOiJodHRwczovL3BlcC5leGFtcGxlLnRlc3QiLCJjYXBhYmlsaXRpZXMiOlt7InR5cGUiOiJmaWVsZF9yZWRhY3QiLCJ2ZXJzaW9uIjoxfSx7InR5cGUiOiJmaWVsZF9yZWRhY3QiLCJ2ZXJzaW9uIjoyfV19"
    );
}

#[test]
fn sixty_four_capabilities_fill_the_cap_exactly() {
    assert_eq!(MAX_PEP_HANDSHAKE_CAPABILITIES, 64);
    let declared = PEPHandshake::new("gw", "a", distinct(64)).unwrap();
    assert_eq!(declared.capabilities().len(), 64);
}

fn decoded(value: &str) -> Vec<u8> {
    URL_SAFE_NO_PAD.decode(value).expect("unpadded base64url")
}

/// The canonical document of a declaration whose capabilities are already in
/// canonical order.
fn document(pep_id: &str, audience: &str, capabilities: &[(String, u32)]) -> String {
    let entries: Vec<String> = capabilities
        .iter()
        .map(|(t, v)| format!(r#"{{"type":"{t}","version":{v}}}"#))
        .collect();
    format!(
        r#"{{"profile_version":1,"pep_id":"{pep_id}","audience":"{audience}","capabilities":[{}]}}"#,
        entries.join(",")
    )
}

fn encode(pep_id: &str, audience: &str, capabilities: &[(String, u32)]) -> String {
    URL_SAFE_NO_PAD.encode(document(pep_id, audience, capabilities))
}

/// A declaration whose document is `json_len` bytes, found by search so the
/// test states the boundary rather than a hand-tuned fixture.
fn declaration_with_document_length(json_len: usize) -> (String, Vec<(String, u32)>) {
    for count in 1..=MAX_PEP_HANDSHAKE_CAPABILITIES as u32 {
        let capabilities: Vec<(String, u32)> =
            (0..count).map(|i| ("step_up_authentication".to_string(), 1_000_000_000 + i)).collect();
        for audience_len in 1..=MAX_IDENTIFIER_BYTES {
            let audience = "a".repeat(audience_len);
            if document("p", &audience, &capabilities).len() == json_len {
                return (audience, capabilities);
            }
        }
    }
    panic!("no declaration found with a {json_len}-byte document");
}

fn built(capabilities: &[(String, u32)]) -> Vec<PEPCapability> {
    capabilities.iter().map(|(t, v)| PEPCapability::new(t, *v)).collect()
}

/// Absent is not empty: an empty set is a declaration and encodes as `[]`.
#[test]
fn an_empty_declaration_is_a_declaration() {
    let declared = PEPHandshake::new("gw", "a", Vec::new()).unwrap();
    let document: Value = serde_json::from_slice(&decoded(declared.header_value())).unwrap();
    assert_eq!(document["capabilities"], Value::Array(Vec::new()));
    assert_eq!(document["profile_version"], 1);
}

/// Unpadded base64 of n bytes is never 1 mod 4 long, so the cap's neighbours
/// are 4096 (a 3072-byte document, accepted) and 4098 (3073 bytes, refused as
/// a whole: the pointer is empty).
#[test]
fn the_byte_cap_is_4096_and_refuses_the_whole_document() {
    let (audience, capabilities) = declaration_with_document_length(3072);
    let at_cap = PEPHandshake::new("p", &audience, built(&capabilities)).expect("4096 is the cap");
    assert_eq!(at_cap.header_value().len(), 4096);
    assert_eq!(at_cap.header_value(), encode("p", &audience, &capabilities));

    let (audience, capabilities) = declaration_with_document_length(3073);
    assert_eq!(encode("p", &audience, &capabilities).len(), 4098);
    let e = refused("p", &audience, built(&capabilities));
    assert_eq!(e.pointer(), "", "the document is at fault, not a member");
    assert!(e.message().contains("4098"), "{}", e.to_string());
}

#[test]
fn the_error_converts_into_the_existing_configuration_error() {
    let e = refused("Gateway", "a", Vec::new());
    let rendered = e.to_string();
    match AxonFlowError::from(e) {
        AxonFlowError::ConfigError(message) => assert_eq!(message, rendered),
        other => panic!("expected ConfigError, got {other:?}"),
    }
}

#[test]
fn the_declaration_rides_only_the_routes_that_read_it() {
    let declared = PEPHandshake::new("gateway", "https://pep.example.test", caps(&[("field_redact", 1)])).unwrap();
    let endpoint = "http://localhost:8080";
    for route in ["/api/v1/decide", "/api/v1/access/evaluation", "/api/v1/mcp/check-input"] {
        let url = format!("{endpoint}{route}");
        assert_eq!(handshake_for(Some(&declared), &url, endpoint), Some(declared.header_value()), "{route}");
    }
    for route in ["/api/request", "/api/v1/mcp/check-output", "/api/v1/typed-policies/publish", "/api/v1/decisions"] {
        let url = format!("{endpoint}{route}");
        assert_eq!(handshake_for(Some(&declared), &url, endpoint), None, "{route}");
    }
    // Absent is not empty: no declaration, no header.
    assert_eq!(handshake_for(None, "http://localhost:8080/api/v1/decide", endpoint), None);
}

#[test]
fn a_configuration_carries_the_declaration_it_was_given() {
    let declared = PEPHandshake::new("gateway", "a", Vec::new()).unwrap();
    let config = AxonFlowConfig::new("http://localhost:8080");
    assert!(config.pep_handshake.is_none());
    let config = config.with_pep_handshake(declared.clone());
    assert_eq!(config.pep_handshake, Some(declared));
    assert_eq!(config.endpoint, "http://localhost:8080");
}

#[test]
fn thirty_two_distinct_known_capabilities_at_the_widest_versions_are_accepted() {
    let kinds = AuthZenObligationType::KNOWN_WIRE_VALUES;
    let declared: Vec<PEPCapability> = (0..32usize)
        .map(|i| PEPCapability::new(kinds[i % kinds.len()], u32::MAX - (i / kinds.len()) as u32))
        .collect();
    let longest_id = "g".repeat(MAX_IDENTIFIER_BYTES);
    let longest_audience = "a".repeat(MAX_IDENTIFIER_BYTES);
    let h = PEPHandshake::new(&longest_id, &longest_audience, declared)
        .expect("a small set of distinct, known, positive capabilities always fits");
    assert_eq!(h.capabilities().len(), 32);
    for pair in h.capabilities().windows(2) {
        let a = (&pair[0].type_, pair[0].version);
        let b = (&pair[1].type_, pair[1].version);
        assert!(a < b, "canonical order is strictly ascending");
    }
}
