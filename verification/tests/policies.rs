use axonflow_sdk_rust::types::policies::PolicyCategory;
use serde_json::Value;

type P = PolicyCategory;

/// A category on the wire: its wire value as a JSON string.
fn to_json(category: PolicyCategory) -> String {
    serde_json::to_string(&category.into_wire()).unwrap()
}

/// A category read off the wire.
fn from_json(json: &str) -> PolicyCategory {
    PolicyCategory::from(serde_json::from_str::<String>(json).unwrap())
}

#[test]
fn pii_indonesia_serializes_to_wire_name() {
    let cat = PolicyCategory::PiiIndonesia;
    let json = to_json(cat);
    assert_eq!(json, r#""pii-indonesia""#);
}

#[test]
fn pii_indonesia_round_trips() {
    let cat = PolicyCategory::PiiIndonesia;
    let json = to_json(cat);
    let back = from_json(&json);
    assert_eq!(back, PolicyCategory::PiiIndonesia);
}

#[test]
fn all_categories_serialize_to_expected_wire_names() {
    let cases = vec![
        (PolicyCategory::SecuritySqli, "security-sqli"),
        (PolicyCategory::SecurityAdmin, "security-admin"),
        (PolicyCategory::PiiGlobal, "pii-global"),
        (PolicyCategory::PiiUs, "pii-us"),
        (PolicyCategory::PiiEu, "pii-eu"),
        (PolicyCategory::PiiIndia, "pii-india"),
        (PolicyCategory::PiiSingapore, "pii-singapore"),
        (PolicyCategory::PiiIndonesia, "pii-indonesia"),
        (PolicyCategory::CodeSecrets, "code-secrets"),
        (PolicyCategory::CodeUnsafe, "code-unsafe"),
        (PolicyCategory::CodeCompliance, "code-compliance"),
        (PolicyCategory::SensitiveData, "sensitive-data"),
        (PolicyCategory::MediaSafety, "media-safety"),
        (PolicyCategory::MediaBiometric, "media-biometric"),
        (PolicyCategory::MediaDocument, "media-document"),
        (PolicyCategory::MediaPii, "media-pii"),
        (PolicyCategory::DynamicRisk, "dynamic-risk"),
        (PolicyCategory::DynamicCompliance, "dynamic-compliance"),
        (PolicyCategory::DynamicSecurity, "dynamic-security"),
        (PolicyCategory::DynamicCost, "dynamic-cost"),
        (PolicyCategory::DynamicAccess, "dynamic-access"),
        (PolicyCategory::SecurityDangerous, "security-dangerous"),
        (PolicyCategory::ComplianceEuaiact, "compliance-euaiact"),
        (PolicyCategory::DangerousQueries, "dangerous_queries"),
        (PolicyCategory::PiiDetection, "pii_detection"),
        (PolicyCategory::SqlInjection, "sql_injection"),
    ];
    assert_eq!(cases.len(), PolicyCategory::KNOWN_WIRE_VALUES.len());
    for (variant, expected) in cases {
        let json = to_json(variant.clone());
        assert_eq!(json, format!(r#""{}""#, expected), "variant {:?}", variant);
        let back = from_json(&json);
        assert_eq!(back, variant, "{expected} parses back to its variant");
    }
}

#[test]
fn every_known_wire_value_parses_to_a_known_variant_and_back() {
    for value in PolicyCategory::KNOWN_WIRE_VALUES {
        let category = from_json(&serde_json::to_string(value).unwrap());
        assert!(category.is_known(), "{value} must be known");
        assert_eq!(category.as_str(), value);
        assert_eq!(category.into_wire(), value);
    }
}

#[test]
fn the_five_categories_the_platform_added_are_known() {
    for (value, variant) in [
        ("security-dangerous", PolicyCategory::SecurityDangerous),
        ("compliance-euaiact", PolicyCategory::ComplianceEuaiact),
        ("dangerous_queries", PolicyCategory::DangerousQueries),
        ("pii_detection", PolicyCategory::PiiDetection),
        ("sql_injection", PolicyCategory::SqlInjection),
    ] {
        let parsed = from_json(&format!("\"{value}\""));
        assert_eq!(parsed, variant, "{value}");
    }
}

#[test]
fn an_unknown_category_is_kept_and_re_serializes_byte_identical() {
    let wire = r#""a-category-from-a-later-platform""#;
    let parsed = from_json(wire);
    assert_eq!(parsed, PolicyCategory::Unknown("a-category-from-a-later-platform".into()));
    assert!(!parsed.is_known());
    assert_eq!(parsed.as_str(), "a-category-from-a-later-platform");
    assert_eq!(parsed.to_string(), "a-category-from-a-later-platform");
    assert_eq!(to_json(parsed), wire);
}

#[test]
fn a_platform_object_with_an_unknown_category_deserializes() {
    let category_of = |json: &str| {
        let object: Value = serde_json::from_str(json).unwrap();
        PolicyCategory::from(object["category"].as_str().unwrap().to_string())
    };
    let known = category_of(r#"{"category":"security-dangerous"}"#);
    assert_eq!(known, PolicyCategory::SecurityDangerous);
    let unknown = category_of(r#"{"category":"brand-new"}"#);
    assert_eq!(unknown, PolicyCategory::Unknown("brand-new".into()));
}

#[test]
fn every_variant_is_in_the_known_set_and_parses_back() {
    let all = [
        P::SecuritySqli,
        P::SecurityAdmin,
        P::PiiGlobal,
        P::PiiUs,
        P::PiiEu,
        P::PiiIndia,
        P::PiiSingapore,
        P::PiiIndonesia,
        P::CodeSecrets,
        P::CodeUnsafe,
        P::CodeCompliance,
        P::SensitiveData,
        P::MediaSafety,
        P::MediaBiometric,
        P::MediaDocument,
        P::MediaPii,
        P::DynamicRisk,
        P::DynamicCompliance,
        P::DynamicSecurity,
        P::DynamicCost,
        P::DynamicAccess,
        P::SecurityDangerous,
        P::ComplianceEuaiact,
        P::DangerousQueries,
        P::PiiDetection,
        P::SqlInjection,
    ];
    for c in &all {
        match c {
            P::SecuritySqli | P::SecurityAdmin | P::PiiGlobal | P::PiiUs | P::PiiEu | P::PiiIndia | P::PiiSingapore | P::PiiIndonesia
            | P::CodeSecrets | P::CodeUnsafe | P::CodeCompliance | P::SensitiveData | P::MediaSafety | P::MediaBiometric
            | P::MediaDocument | P::MediaPii | P::DynamicRisk | P::DynamicCompliance | P::DynamicSecurity | P::DynamicCost
            | P::DynamicAccess | P::SecurityDangerous | P::ComplianceEuaiact | P::DangerousQueries | P::PiiDetection
            | P::SqlInjection => {}
            _ => unreachable!("the list names known variants only"),
        }
    }
    assert_eq!(all.len(), PolicyCategory::KNOWN_WIRE_VALUES.len());
    for c in all {
        let wire = c.as_str().to_string();
        assert!(PolicyCategory::KNOWN_WIRE_VALUES.contains(&wire.as_str()), "{wire}");
        assert_eq!(PolicyCategory::from(wire.clone()), c, "{wire}");
    }
}
