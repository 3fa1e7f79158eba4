//! Policy categories: the platform's open set, carried verbatim when this
//! build does not know a value.

use vstd::prelude::*;
use crate::text::{owned, str_eq};

verus! {

/// A policy category. A category this build does not name is carried
/// verbatim as `Unknown` and renders byte-identical.
#[derive(Debug, Clone, PartialEq, Eq, Hash)]
#[non_exhaustive]
pub enum PolicyCategory {
    /// `security-sqli`
    SecuritySqli,
    /// `security-admin`
    SecurityAdmin,
    /// `pii-global`
    PiiGlobal,
    /// `pii-us`
    PiiUs,
    /// `pii-eu`
    PiiEu,
    /// `pii-india`
    PiiIndia,
    /// `pii-singapore`
    PiiSingapore,
    /// `pii-indonesia`
    PiiIndonesia,
    /// `code-secrets`
    CodeSecrets,
    /// `code-unsafe`
    CodeUnsafe,
    /// `code-compliance`
    CodeCompliance,
    /// `sensitive-data`
    SensitiveData,
    /// `media-safety`
    MediaSafety,
    /// `media-biometric`
    MediaBiometric,
    /// `media-document`
    MediaDocument,
    /// `media-pii`
    MediaPii,
    /// `dynamic-risk`
    DynamicRisk,
    /// `dynamic-compliance`
    DynamicCompliance,
    /// `dynamic-security`
    DynamicSecurity,
    /// `dynamic-cost`
    DynamicCost,
    /// `dynamic-access`
    DynamicAccess,
    /// `security-dangerous`
    SecurityDangerous,
    /// `compliance-euaiact`
    ComplianceEuaiact,
    /// `dangerous_queries`
    DangerousQueries,
    /// `pii_detection`
    PiiDetection,
    /// `sql_injection`
    SqlInjection,
    /// A category this build does not know, carried verbatim.
    Unknown(String),
}

/// The wire value of a category.
pub open spec fn category_wire(c: PolicyCategory) -> Seq<char> {
    match c {
        PolicyCategory::SecuritySqli => "security-sqli"@,
        PolicyCategory::SecurityAdmin => "security-admin"@,
        PolicyCategory::PiiGlobal => "pii-global"@,
        PolicyCategory::PiiUs => "pii-us"@,
        PolicyCategory::PiiEu => "pii-eu"@,
        PolicyCategory::PiiIndia => "pii-india"@,
        PolicyCategory::PiiSingapore => "pii-singapore"@,
        PolicyCategory::PiiIndonesia => "pii-indonesia"@,
        PolicyCategory::CodeSecrets => "code-secrets"@,
        PolicyCategory::CodeUnsafe => "code-unsafe"@,
        PolicyCategory::CodeCompliance => "code-compliance"@,
        PolicyCategory::SensitiveData => "sensitive-data"@,
        PolicyCategory::MediaSafety => "media-safety"@,
        PolicyCategory::MediaBiometric => "media-biometric"@,
        PolicyCategory::MediaDocument => "media-document"@,
        PolicyCategory::MediaPii => "media-pii"@,
        PolicyCategory::DynamicRisk => "dynamic-risk"@,
        PolicyCategory::DynamicCompliance => "dynamic-compliance"@,
        PolicyCategory::DynamicSecurity => "dynamic-security"@,
        PolicyCategory::DynamicCost => "dynamic-cost"@,
        PolicyCategory::DynamicAccess => "dynamic-access"@,
        PolicyCategory::SecurityDangerous => "security-dangerous"@,
        PolicyCategory::ComplianceEuaiact => "compliance-euaiact"@,
        PolicyCategory::DangerousQueries => "dangerous_queries"@,
        PolicyCategory::PiiDetection => "pii_detection"@,
        PolicyCategory::SqlInjection => "sql_injection"@,
        PolicyCategory::Unknown(s) => s@,
    }
}

/// The category a wire value names: the known one it spells, `Unknown`
/// with the value otherwise.
pub open spec fn category_named(v: String) -> PolicyCategory {
    if v@ == "security-sqli"@ {
        PolicyCategory::SecuritySqli
    } else if v@ == "security-admin"@ {
        PolicyCategory::SecurityAdmin
    } else if v@ == "pii-global"@ {
        PolicyCategory::PiiGlobal
    } else if v@ == "pii-us"@ {
        PolicyCategory::PiiUs
    } else if v@ == "pii-eu"@ {
        PolicyCategory::PiiEu
    } else if v@ == "pii-india"@ {
        PolicyCategory::PiiIndia
    } else if v@ == "pii-singapore"@ {
        PolicyCategory::PiiSingapore
    } else if v@ == "pii-indonesia"@ {
        PolicyCategory::PiiIndonesia
    } else if v@ == "code-secrets"@ {
        PolicyCategory::CodeSecrets
    } else if v@ == "code-unsafe"@ {
        PolicyCategory::CodeUnsafe
    } else if v@ == "code-compliance"@ {
        PolicyCategory::CodeCompliance
    } else if v@ == "sensitive-data"@ {
        PolicyCategory::SensitiveData
    } else if v@ == "media-safety"@ {
        PolicyCategory::MediaSafety
    } else if v@ == "media-biometric"@ {
        PolicyCategory::MediaBiometric
    } else if v@ == "media-document"@ {
        PolicyCategory::MediaDocument
    } else if v@ == "media-pii"@ {
        PolicyCategory::MediaPii
    } else if v@ == "dynamic-risk"@ {
        PolicyCategory::DynamicRisk
    } else if v@ == "dynamic-compliance"@ {
        PolicyCategory::DynamicCompliance
    } else if v@ == "dynamic-security"@ {
        PolicyCategory::DynamicSecurity
    } else if v@ == "dynamic-cost"@ {
        PolicyCategory::DynamicCost
    } else if v@ == "dynamic-access"@ {
        PolicyCategory::DynamicAccess
    } else if v@ == "security-dangerous"@ {
        PolicyCategory::SecurityDangerous
    } else if v@ == "compliance-euaiact"@ {
        PolicyCategory::ComplianceEuaiact
    } else if v@ == "dangerous_queries"@ {
        PolicyCategory::DangerousQueries
    } else if v@ == "pii_detection"@ {
        PolicyCategory::PiiDetection
    } else if v@ == "sql_injection"@ {
        PolicyCategory::SqlInjection
    } else {
        PolicyCategory::Unknown(v)
    }
}

/// Whether a wire value is one this build knows.
pub open spec fn known_category_value(v: Seq<char>) -> bool {
    v == "security-sqli"@
    || v == "security-admin"@
    || v == "pii-global"@
    || v == "pii-us"@
    || v == "pii-eu"@
    || v == "pii-india"@
    || v == "pii-singapore"@
    || v == "pii-indonesia"@
    || v == "code-secrets"@
    || v == "code-unsafe"@
    || v == "code-compliance"@
    || v == "sensitive-data"@
    || v == "media-safety"@
    || v == "media-biometric"@
    || v == "media-document"@
    || v == "media-pii"@
    || v == "dynamic-risk"@
    || v == "dynamic-compliance"@
    || v == "dynamic-security"@
    || v == "dynamic-cost"@
    || v == "dynamic-access"@
    || v == "security-dangerous"@
    || v == "compliance-euaiact"@
    || v == "dangerous_queries"@
    || v == "pii_detection"@
    || v == "sql_injection"@
}

impl PolicyCategory {
    /// Every wire value this build knows.
    pub const KNOWN_WIRE_VALUES: [&'static str; 26] = [
        "security-sqli",
        "security-admin",
        "pii-global",
        "pii-us",
        "pii-eu",
        "pii-india",
        "pii-singapore",
        "pii-indonesia",
        "code-secrets",
        "code-unsafe",
        "code-compliance",
        "sensitive-data",
        "media-safety",
        "media-biometric",
        "media-document",
        "media-pii",
        "dynamic-risk",
        "dynamic-compliance",
        "dynamic-security",
        "dynamic-cost",
        "dynamic-access",
        "security-dangerous",
        "compliance-euaiact",
        "dangerous_queries",
        "pii_detection",
        "sql_injection",
    ];

    /// The wire value.
    pub fn as_str(&self) -> (r: &str)
        ensures
            r@ == category_wire(*self),
    {
        match self {
            PolicyCategory::SecuritySqli => "security-sqli",
            PolicyCategory::SecurityAdmin => "security-admin",
            PolicyCategory::PiiGlobal => "pii-global",
            PolicyCategory::PiiUs => "pii-us",
            PolicyCategory::PiiEu => "pii-eu",
            PolicyCategory::PiiIndia => "pii-india",
            PolicyCategory::PiiSingapore => "pii-singapore",
            PolicyCategory::PiiIndonesia => "pii-indonesia",
            PolicyCategory::CodeSecrets => "code-secrets",
            PolicyCategory::CodeUnsafe => "code-unsafe",
            PolicyCategory::CodeCompliance => "code-compliance",
            PolicyCategory::SensitiveData => "sensitive-data",
            PolicyCategory::MediaSafety => "media-safety",
            PolicyCategory::MediaBiometric => "media-biometric",
            PolicyCategory::MediaDocument => "media-document",
            PolicyCategory::MediaPii => "media-pii",
            PolicyCategory::DynamicRisk => "dynamic-risk",
            PolicyCategory::DynamicCompliance => "dynamic-compliance",
            PolicyCategory::DynamicSecurity => "dynamic-security",
            PolicyCategory::DynamicCost => "dynamic-cost",
            PolicyCategory::DynamicAccess => "dynamic-access",
            PolicyCategory::SecurityDangerous => "security-dangerous",
            PolicyCategory::ComplianceEuaiact => "compliance-euaiact",
            PolicyCategory::DangerousQueries => "dangerous_queries",
            PolicyCategory::PiiDetection => "pii_detection",
            PolicyCategory::SqlInjection => "sql_injection",
            PolicyCategory::Unknown(v) => v.as_str(),
        }
    }

    /// Whether this is a value this build knows.
    pub fn is_known(&self) -> (r: bool)
        ensures
            r == !(*self is Unknown),
    {
        !matches!(self, PolicyCategory::Unknown(_))
    }

    /// The rendered category: its wire value.
    pub fn to_string(&self) -> (r: String)
        ensures
            r@ == category_wire(*self),
    {
        owned(self.as_str())
    }

    /// The category a wire value names.
    pub fn from_wire(v: String) -> (r: Self)
        ensures
            r == category_named(v),
    {
        if str_eq(v.as_str(), "security-sqli") {
            PolicyCategory::SecuritySqli
        } else if str_eq(v.as_str(), "security-admin") {
            PolicyCategory::SecurityAdmin
        } else if str_eq(v.as_str(), "pii-global") {
            PolicyCategory::PiiGlobal
        } else if str_eq(v.as_str(), "pii-us") {
            PolicyCategory::PiiUs
        } else if str_eq(v.as_str(), "pii-eu") {
            PolicyCategory::PiiEu
        } else if str_eq(v.as_str(), "pii-india") {
            PolicyCategory::PiiIndia
        } else if str_eq(v.as_str(), "pii-singapore") {
            PolicyCategory::PiiSingapore
        } else if str_eq(v.as_str(), "pii-indonesia") {
            PolicyCategory::PiiIndonesia
        } else if str_eq(v.as_str(), "code-secrets") {
            PolicyCategory::CodeSecrets
        } else if str_eq(v.as_str(), "code-unsafe") {
            PolicyCategory::CodeUnsafe
        } else if str_eq(v.as_str(), "code-compliance") {
            PolicyCategory::CodeCompliance
        } else if str_eq(v.as_str(), "sensitive-data") {
            PolicyCategory::SensitiveData
        } else if str_eq(v.as_str(), "media-safety") {
            PolicyCategory::MediaSafety
        } else if str_eq(v.as_str(), "media-biometric") {
            PolicyCategory::MediaBiometric
        } else if str_eq(v.as_str(), "media-document") {
            PolicyCategory::MediaDocument
        } else if str_eq(v.as_str(), "media-pii") {
            PolicyCategory::MediaPii
        } else if str_eq(v.as_str(), "dynamic-risk") {
            PolicyCategory::DynamicRisk
        } else if str_eq(v.as_str(), "dynamic-compliance") {
            PolicyCategory::DynamicCompliance
        } else if str_eq(v.as_str(), "dynamic-security") {
            PolicyCategory::DynamicSecurity
        } else if str_eq(v.as_str(), "dynamic-cost") {
            PolicyCategory::DynamicCost
        } else if str_eq(v.as_str(), "dynamic-access") {
            PolicyCategory::DynamicAccess
        } else if str_eq(v.as_str(), "security-dangerous") {
            PolicyCategory::SecurityDangerous
        } else if str_eq(v.as_str(), "compliance-euaiact") {
            PolicyCategory::ComplianceEuaiact
        } else if str_eq(v.as_str(), "dangerous_queries") {
            PolicyCategory::DangerousQueries
        } else if str_eq(v.as_str(), "pii_detection") {
            PolicyCategory::PiiDetection
        } else if str_eq(v.as_str(), "sql_injection") {
            PolicyCategory::SqlInjection
        } else {
            PolicyCategory::Unknown(v)
        }
    }

    /// The wire value, owned.
    pub fn into_wire(self) -> (r: String)
        ensures
            r@ == category_wire(self),
    {
        match self {
            PolicyCategory::Unknown(s) => s,
            known => owned(known.as_str()),
        }
    }
}

impl From<String> for PolicyCategory {
    fn from(v: String) -> (r: Self) {
        PolicyCategory::from_wire(v)
    }
}

impl vstd::std_specs::convert::FromSpecImpl<String> for PolicyCategory {
    open spec fn obeys_from_spec() -> bool {
        true
    }

    open spec fn from_spec(v: String) -> Self {
        category_named(v)
    }
}

/// Reading any wire value and writing it back gives the same text: a
/// category this build does not know re-serializes byte-identical.
pub proof fn law_categories_round_trip_their_text(v: String)
    ensures
        category_wire(category_named(v)) == v@,
{
}

/// A category this build does not know, carrying a value this build does not
/// know, reads back as itself.
pub proof fn law_unknown_categories_read_back(v: String)
    requires
        !known_category_value(v@),
    ensures
        category_named(v) == PolicyCategory::Unknown(v),
{
}

} // verus!
