//! The PEP capability handshake: what an enforcement point declares it can
//! discharge, validated by the platform's rules and encoded once as the
//! unpadded base64url form of a compact JSON document.
//!
//! A declaration accepted here is one the platform's decoder accepts; one it
//! would refuse fails at construction, naming the member at fault.

use vstd::prelude::*;
use vstd::multiset::*;
use vstd::seq_lib::*;
use vstd::utf8::{encode_utf8, is_ascii_chars, is_ascii_chars_encode_utf8};
use crate::authzen::types::{known_obligation_type, AuthZenObligationType, KNOWN_OBLIGATION_TYPES_RENDERED};
use crate::order::{Key, key_le, key_lt, sorted, lex_lt, lex_lt_exec, lemma_insert_sorted, lemma_key_total, lemma_sorted_unique};
use crate::authzen::AUTHZEN_PATH;
use crate::error::AxonFlowError;
use crate::pep::{DECIDE_PATH, REQUEST_REDACTION_PATH};
use crate::text::{lemma_utf8_concat, lemma_utf8_length_bound, append, chars_of, debug_quote, debug_quoted, decimal, digit, owned, seq_eq, str_eq, to_decimal};

verus! {

/// The request header the declaration rides on.
pub const PEP_HANDSHAKE_HEADER: &'static str = "X-Axonflow-PEP-Handshake";

/// The only handshake profile the platform reads.
pub const PEP_HANDSHAKE_PROFILE_V1: u32 = 1;

/// The longest header value the platform reads, in bytes of base64.
pub const MAX_PEP_HANDSHAKE_BYTES: usize = 4096;

/// The most capabilities one declaration may carry.
pub const MAX_PEP_HANDSHAKE_CAPABILITIES: usize = 64;

/// The longest `pep_id` and `audience` the platform reads, in bytes.
pub const MAX_IDENTIFIER_BYTES: usize = 128;

/// One obligation type, at one schema version, that the enforcement point can
/// discharge.
#[derive(Debug, Clone, PartialEq, Eq, Hash, PartialOrd, Ord)]
#[non_exhaustive]
pub struct PEPCapability {
    /// The obligation type, for example `"field_redact"`.
    pub type_: String,
    /// The obligation's schema version.
    pub version: u32,
}

impl PEPCapability {
    /// The capability as an ordering key: `(type, version)`.
    pub open spec fn key(&self) -> Key {
        (self.type_@, self.version)
    }

    /// A capability for `type_` at `version`, validated when declared.
    pub fn new(type_: &str, version: u32) -> (c: Self)
        ensures
            c.type_@ == type_@,
            c.version == version,
    {
        PEPCapability { type_: owned(type_), version }
    }
}

/// The keys of a list of capabilities, in order.
pub open spec fn keys(caps: Seq<PEPCapability>) -> Seq<Key> {
    caps.map_values(|c: PEPCapability| c.key())
}

/// A declaration the platform would refuse, found before anything was sent.
#[derive(Debug, Clone, PartialEq, Eq)]
pub struct PEPHandshakeError {
    pointer: &'static str,
    message: String,
}

impl PEPHandshakeError {
    pub closed spec fn spec_pointer(&self) -> Seq<char> {
        self.pointer@
    }

    pub closed spec fn spec_message(&self) -> Seq<char> {
        self.message@
    }

    /// A refusal naming `pointer`.
    pub fn new(pointer: &'static str, message: String) -> (e: Self)
        ensures
            e.spec_pointer() == pointer@,
            e.spec_message() == message@,
    {
        PEPHandshakeError { pointer, message }
    }

    /// The JSON Pointer of the member at fault, or `""` for the whole document.
    pub fn pointer(&self) -> (r: &str)
        ensures
            r@ == self.spec_pointer(),
    {
        self.pointer
    }

    /// What is wrong with it.
    pub fn message(&self) -> (r: &str)
        ensures
            r@ == self.spec_message(),
    {
        self.message.as_str()
    }

    /// The rendered refusal: the header, the pointer when there is one, and
    /// the message.
    pub fn to_string(&self) -> (r: String)
        ensures
            r@ == refusal_rendering(self.spec_pointer(), self.spec_message()),
    {
        let mut r = owned(PEP_HANDSHAKE_HEADER);
        append(&mut r, ": ");
        if !self.pointer.is_empty() {
            append(&mut r, self.pointer);
            append(&mut r, ": ");
        }
        append(&mut r, self.message.as_str());
        r
    }
}

/// How a refusal renders.
pub open spec fn refusal_rendering(pointer: Seq<char>, message: Seq<char>) -> Seq<char> {
    if pointer.len() == 0 {
        PEP_HANDSHAKE_HEADER@ + ": "@ + message
    } else {
        PEP_HANDSHAKE_HEADER@ + ": "@ + pointer + ": "@ + message
    }
}

/// A refused declaration is a configuration error, carrying the rendered
/// refusal.
impl From<PEPHandshakeError> for AxonFlowError {
    fn from(e: PEPHandshakeError) -> (r: Self)
        ensures
            r matches AxonFlowError::ConfigError(m) && m@ == refusal_rendering(e.spec_pointer(), e.spec_message()),
    {
        AxonFlowError::ConfigError(e.to_string())
    }
}

/// The conversion's result is stated on `from` itself: the rendering is a
/// `String` built when the conversion runs, which no spec value can name, so
/// the generic equation is not claimed.
impl vstd::std_specs::convert::FromSpecImpl<PEPHandshakeError> for AxonFlowError {
    open spec fn obeys_from_spec() -> bool {
        false
    }

    open spec fn from_spec(e: PEPHandshakeError) -> Self {
        arbitrary()
    }
}

/// A capability declaration, validated and encoded once.
#[derive(Debug, Clone, PartialEq, Eq)]
pub struct PEPHandshake {
    pep_id: String,
    audience: String,
    capabilities: Vec<PEPCapability>,
    header_value: String,
}

impl PEPHandshake {
    pub closed spec fn spec_pep_id(&self) -> Seq<char> {
        self.pep_id@
    }

    pub closed spec fn spec_audience(&self) -> Seq<char> {
        self.audience@
    }

    pub closed spec fn spec_capabilities(&self) -> Seq<PEPCapability> {
        self.capabilities@
    }

    pub closed spec fn spec_header_value(&self) -> Seq<char> {
        self.header_value@
    }
}

// ---------------------------------------------------------------------------
// The grammars
// ---------------------------------------------------------------------------

/// Which identifier grammar a value is held to.
pub enum Grammar {
    /// `pep_id`: `[a-z0-9][a-z0-9._-]*`.
    Identifier,
    /// `audience`: `[A-Za-z0-9][A-Za-z0-9._:/-]*`.
    Audience,
}

pub open spec fn spec_identifier_start(b: u8) -> bool {
    (0x61 <= b <= 0x7a) || (0x30 <= b <= 0x39)
}

pub open spec fn spec_identifier_byte(b: u8) -> bool {
    spec_identifier_start(b) || b == 0x2e || b == 0x5f || b == 0x2d
}

pub open spec fn spec_audience_start(b: u8) -> bool {
    (0x61 <= b <= 0x7a) || (0x41 <= b <= 0x5a) || (0x30 <= b <= 0x39)
}

pub open spec fn spec_audience_byte(b: u8) -> bool {
    spec_audience_start(b) || b == 0x2e || b == 0x5f || b == 0x3a || b == 0x2f || b == 0x2d
}

pub open spec fn grammar_start(g: Grammar, b: u8) -> bool {
    match g {
        Grammar::Identifier => spec_identifier_start(b),
        Grammar::Audience => spec_audience_start(b),
    }
}

pub open spec fn grammar_byte(g: Grammar, b: u8) -> bool {
    match g {
        Grammar::Identifier => spec_identifier_byte(b),
        Grammar::Audience => spec_audience_byte(b),
    }
}

/// Whether `bytes` is non-empty, at most 128 bytes, and matches the grammar
/// over its WHOLE length.
pub open spec fn spec_well_formed(bytes: Seq<u8>, g: Grammar) -> bool {
    &&& 0 < bytes.len() <= MAX_IDENTIFIER_BYTES
    &&& grammar_start(g, bytes[0])
    &&& forall|i: int| 1 <= i < bytes.len() ==> grammar_byte(g, #[trigger] bytes[i])
}

/// The audience grammar, `[A-Za-z0-9][A-Za-z0-9._:/-]*` in 1 to 128 bytes:
/// the first byte any ASCII letter or digit (`0`-`9` = 0x30-0x39, `A`-`Z` =
/// 0x41-0x5a, `a`-`z` = 0x61-0x7a), every other byte one of those or `.`,
/// `_`, `:`, `/`, `-`.
pub proof fn law_the_audience_grammar(bytes: Seq<u8>)
    ensures
        spec_well_formed(bytes, Grammar::Audience) <==> {
            &&& 1 <= bytes.len() <= 128
            &&& (0x30 <= bytes[0] <= 0x39 || 0x41 <= bytes[0] <= 0x5a || 0x61 <= bytes[0] <= 0x7a)
            &&& forall|i: int| 1 <= i < bytes.len() ==> {
                let b = #[trigger] bytes[i];
                0x30 <= b <= 0x39 || 0x41 <= b <= 0x5a || 0x61 <= b <= 0x7a
                    || b == 0x2e || b == 0x5f || b == 0x3a || b == 0x2f || b == 0x2d
            }
        },
{
}

/// The `pep_id` grammar, `[a-z0-9][a-z0-9._-]*` in 1 to 128 bytes: the
/// first byte a lowercase ASCII letter or a digit, every other byte one of
/// those or `.`, `_`, `-`.
pub proof fn law_the_pep_id_grammar(bytes: Seq<u8>)
    ensures
        spec_well_formed(bytes, Grammar::Identifier) <==> {
            &&& 1 <= bytes.len() <= 128
            &&& (0x30 <= bytes[0] <= 0x39 || 0x61 <= bytes[0] <= 0x7a)
            &&& forall|i: int| 1 <= i < bytes.len() ==> {
                let b = #[trigger] bytes[i];
                0x30 <= b <= 0x39 || 0x61 <= b <= 0x7a || b == 0x2e || b == 0x5f || b == 0x2d
            }
        },
{
}

pub fn is_identifier_start(b: u8) -> (r: bool)
    ensures
        r == spec_identifier_start(b),
{
    (0x61u8 <= b && b <= 0x7au8) || (0x30u8 <= b && b <= 0x39u8)
}

pub fn is_identifier_byte(b: u8) -> (r: bool)
    ensures
        r == spec_identifier_byte(b),
{
    is_identifier_start(b) || b == 0x2eu8 || b == 0x5fu8 || b == 0x2du8
}

pub fn is_audience_start(b: u8) -> (r: bool)
    ensures
        r == spec_audience_start(b),
{
    (0x61u8 <= b && b <= 0x7au8) || (0x41u8 <= b && b <= 0x5au8) || (0x30u8 <= b && b <= 0x39u8)
}

pub fn is_audience_byte(b: u8) -> (r: bool)
    ensures
        r == spec_audience_byte(b),
{
    is_audience_start(b) || b == 0x2eu8 || b == 0x5fu8 || b == 0x3au8 || b == 0x2fu8 || b == 0x2du8
}

/// Whether `value` matches the grammar `g`, byte by byte over the whole text.
pub fn well_formed(value: &str, g: Grammar) -> (r: bool)
    ensures
        r == spec_well_formed(encode_utf8(value@), g),
{
    let bytes = value.as_bytes();
    let n = bytes.len();
    if n == 0 || n > MAX_IDENTIFIER_BYTES {
        return false;
    }
    let first = match g {
        Grammar::Identifier => is_identifier_start(bytes[0]),
        Grammar::Audience => is_audience_start(bytes[0]),
    };
    if !first {
        return false;
    }
    let mut i: usize = 1;
    while i < n
        invariant
            n == bytes@.len(),
            1 <= i <= n,
            bytes@ == encode_utf8(value@),
            forall|k: int| 1 <= k < i ==> grammar_byte(g, #[trigger] bytes@[k]),
        decreases n - i,
    {
        let ok = match g {
            Grammar::Identifier => is_identifier_byte(bytes[i]),
            Grammar::Audience => is_audience_byte(bytes[i]),
        };
        if !ok {
            return false;
        }
        i += 1;
    }
    true
}

// ---------------------------------------------------------------------------
// The document and its encoding
// ---------------------------------------------------------------------------

/// The unpadded base64url encoding of `bytes`, as the `base64` crate's
/// `URL_SAFE_NO_PAD` engine produces it.
pub uninterp spec fn base64_url_nopad(bytes: Seq<u8>) -> Seq<char>;

/// The length of an unpadded base64 encoding of `n` bytes.
pub open spec fn base64_nopad_len(n: nat) -> nat {
    (4 * n + 2) / 3
}

/// `base64::engine::general_purpose::URL_SAFE_NO_PAD.encode`.
#[verifier::external_body]
fn encode_base64_url_nopad(bytes: &[u8]) -> (r: String)
    ensures
        r@ == base64_url_nopad(bytes@),
        r@.len() == base64_nopad_len(bytes@.len()),
{
    base64::Engine::encode(&base64::engine::general_purpose::URL_SAFE_NO_PAD, bytes)
}

/// One capability as a JSON object.
pub open spec fn capability_json(k: Key) -> Seq<char> {
    "{\"type\":\""@ + k.0 + "\",\"version\":"@ + decimal(k.1 as nat) + "}"@
}

/// The capabilities as the members of a JSON array, comma-separated.
pub open spec fn capabilities_json(s: Seq<Key>) -> Seq<char>
    decreases s.len(),
{
    if s.len() == 0 {
        Seq::empty()
    } else if s.len() == 1 {
        capability_json(s[0])
    } else {
        capabilities_json(s.drop_last()) + ","@ + capability_json(s.last())
    }
}

/// The compact JSON document, members in the platform's order. Every value
/// it holds has passed the grammars or the obligation vocabulary, so none
/// needs escaping.
pub open spec fn document(pep_id: Seq<char>, audience: Seq<char>, s: Seq<Key>) -> Seq<char> {
    "{\"profile_version\":1,\"pep_id\":\""@ + pep_id + "\",\"audience\":\""@ + audience
        + "\",\"capabilities\":["@ + capabilities_json(s) + "]}"@
}

/// The header value of a declaration.
pub open spec fn header_of(pep_id: Seq<char>, audience: Seq<char>, s: Seq<Key>) -> Seq<char> {
    base64_url_nopad(encode_utf8(document(pep_id, audience, s)))
}

// ---------------------------------------------------------------------------
// The outcome, stated whole
// ---------------------------------------------------------------------------

/// THE canonical order of a set of capabilities: the one sorted arrangement.
pub open spec fn canonical_of(m: Multiset<Key>) -> Seq<Key> {
    choose|s: Seq<Key>| sorted(s) && s.to_multiset() == m
}

pub open spec fn pep_id_message(pep_id: Seq<char>) -> Seq<char> {
    debug_quoted(pep_id) + " is not of the form [a-z0-9][a-z0-9._-]* with at most 128 bytes"@
}

pub open spec fn audience_message(audience: Seq<char>) -> Seq<char> {
    debug_quoted(audience) + " is not of the form [A-Za-z0-9][A-Za-z0-9._:/-]* with at most 128 bytes"@
}

pub open spec fn count_message(n: nat) -> Seq<char> {
    "declares "@ + decimal(n) + " capabilities; the platform reads at most 64"@
}

pub open spec fn unknown_type_message(t: Seq<char>) -> Seq<char> {
    "names obligation type "@ + debug_quoted(t) + ", which is not one of "@
        + KNOWN_OBLIGATION_TYPES_RENDERED@
}

pub open spec fn version_zero_message(t: Seq<char>) -> Seq<char> {
    "declares "@ + debug_quoted(t) + " at version 0; a version is a positive integer"@
}

pub open spec fn repeat_message(k: Key) -> Seq<char> {
    "declares "@ + debug_quoted(k.0) + " at version "@ + decimal(k.1 as nat)
        + " more than once; the platform refuses a repeated capability"@
}

pub open spec fn size_message(n: nat) -> Seq<char> {
    "encodes to "@ + decimal(n) + " bytes; the header carries at most 4096"@
}

/// What is wrong with the capability at `i` of a canonical list, if anything.
pub open spec fn failure_at(s: Seq<Key>, i: int) -> Option<Seq<char>> {
    if !known_obligation_type(s[i].0) {
        Some(unknown_type_message(s[i].0))
    } else if s[i].1 == 0 {
        Some(version_zero_message(s[i].0))
    } else if i > 0 && s[i - 1] == s[i] {
        Some(repeat_message(s[i]))
    } else {
        None
    }
}

/// The first failure at or after `i`, in canonical order.
pub open spec fn first_failure_from(s: Seq<Key>, i: int) -> Option<Seq<char>>
    decreases s.len() - i,
{
    if i < 0 || i >= s.len() {
        None
    } else {
        match failure_at(s, i) {
            Some(m) => Some(m),
            None => first_failure_from(s, i + 1),
        }
    }
}

/// What a declaration of `caps` under `pep_id` and `audience` comes to: the
/// canonical capabilities and the header value, or the pointer and message
/// of the first rule it breaks, checked in the platform's order.
pub open spec fn handshake_outcome(pep_id: Seq<char>, audience: Seq<char>, caps: Seq<Key>) -> Result<(Seq<Key>, Seq<char>), (Seq<char>, Seq<char>)> {
    if !spec_well_formed(encode_utf8(pep_id), Grammar::Identifier) {
        Err(("/pep_id"@, pep_id_message(pep_id)))
    } else if !spec_well_formed(encode_utf8(audience), Grammar::Audience) {
        Err(("/audience"@, audience_message(audience)))
    } else if caps.len() > MAX_PEP_HANDSHAKE_CAPABILITIES {
        Err(("/capabilities"@, count_message(caps.len())))
    } else {
        let s = canonical_of(caps.to_multiset());
        match first_failure_from(s, 0) {
            Some(m) => Err(("/capabilities"@, m)),
            None => {
                let n = base64_nopad_len(encode_utf8(document(pep_id, audience, s)).len());
                if n > MAX_PEP_HANDSHAKE_BYTES {
                    Err((Seq::empty(), size_message(n)))
                } else {
                    Ok((s, header_of(pep_id, audience, s)))
                }
            },
        }
    }
}

/// The declaration's accepted contents, or the refusal, as plain values.
pub open spec fn handshake_view(r: Result<PEPHandshake, PEPHandshakeError>) -> Result<(Seq<Key>, Seq<char>), (Seq<char>, Seq<char>)> {
    match r {
        Ok(h) => Ok((keys(h.spec_capabilities()), h.spec_header_value())),
        Err(e) => Err((e.spec_pointer(), e.spec_message())),
    }
}

/// Declaring the same capabilities in any order gives the same outcome: the
/// same canonical list and the same header bytes, or the same refusal.
pub proof fn law_declaration_order_is_irrelevant(pep_id: Seq<char>, audience: Seq<char>, a: Seq<Key>, b: Seq<Key>)
    requires
        a.to_multiset() == b.to_multiset(),
    ensures
        handshake_outcome(pep_id, audience, a) == handshake_outcome(pep_id, audience, b),
{
    to_multiset_len(a);
    to_multiset_len(b);
}

/// A well-formed `pep_id` and `audience` declaring no capability are
/// accepted: an empty set is a declaration, and it always fits the header.
pub proof fn law_an_empty_well_formed_declaration_is_accepted(pep_id: Seq<char>, audience: Seq<char>)
    requires
        spec_well_formed(encode_utf8(pep_id), Grammar::Identifier),
        spec_well_formed(encode_utf8(audience), Grammar::Audience),
    ensures
        handshake_outcome(pep_id, audience, Seq::empty()) matches Ok(accepted) && accepted.0.len() == 0
            && accepted.1 == header_of(pep_id, audience, Seq::empty()),
{
    let caps = Seq::<Key>::empty();
    lemma_canonical_exists(caps);
    let s = canonical_of(caps.to_multiset());
    to_multiset_len(s);
    to_multiset_len(caps);
    assert(caps.to_multiset().len() == 0);
    assert(s.len() == 0);
    assert(capabilities_json(s) =~= Seq::<char>::empty());
    lemma_document_length(pep_id, audience, s);
    assert(first_failure_from(s, 0) is None);
}

/// A declaration of at most 32 distinct capabilities, each of a known type at
/// a positive version, under a well-formed `pep_id` and `audience`, is
/// accepted: it comes back in canonical order, and its header is the encoding
/// of the canonical document.
pub proof fn law_a_small_valid_declaration_is_accepted(pep_id: Seq<char>, audience: Seq<char>, caps: Seq<Key>)
    requires
        spec_well_formed(encode_utf8(pep_id), Grammar::Identifier),
        spec_well_formed(encode_utf8(audience), Grammar::Audience),
        caps.len() <= 32,
        caps.no_duplicates(),
        forall|i: int| 0 <= i < caps.len() ==> known_obligation_type(#[trigger] caps[i].0) && caps[i].1 > 0,
    ensures
        handshake_outcome(pep_id, audience, caps) matches Ok(accepted)
            && accepted.0 == canonical_of(caps.to_multiset())
            && accepted.1 == header_of(pep_id, audience, accepted.0),
{
    broadcast use group_to_multiset_ensures;

    let s = canonical_of(caps.to_multiset());
    lemma_canonical_exists(caps);
    to_multiset_len(s);
    to_multiset_len(caps);
    caps.lemma_multiset_has_no_duplicates();
    s.lemma_multiset_has_no_duplicates_conv();
    assert forall|i: int| 0 <= i < s.len() implies known_obligation_type(#[trigger] s[i].0) && s[i].1 > 0 by {
        assert(s.contains(s[i]));
        assert(s.to_multiset().count(s[i]) > 0);
        assert(caps.to_multiset().count(s[i]) > 0);
        assert(caps.contains(s[i]));
        let j = choose|j: int| 0 <= j < caps.len() && caps[j] == s[i];
        assert(known_obligation_type(caps[j].0) && caps[j].1 > 0);
    }
    assert forall|k: int| 0 <= k < s.len() implies failure_at(s, k) is None by {
        if k > 0 {
            assert(s[k - 1] != s[k]);
        }
    }
    lemma_valid_means_no_failure(s, 0);
    lemma_capabilities_json_ascii(s);
    is_ascii_chars_encode_utf8(capabilities_json(s));
    lemma_document_length(pep_id, audience, s);
    let n = encode_utf8(document(pep_id, audience, s)).len();
    assert(n <= 2316);
    assert(base64_nopad_len(n) <= MAX_PEP_HANDSHAKE_BYTES) by (nonlinear_arith)
        requires
            n <= 2316,
    {
    }
}

/// The document's UTF-8 length is bounded by its fixed text, the two
/// identifiers, and the encoded capabilities.
proof fn lemma_document_length(pep_id: Seq<char>, audience: Seq<char>, s: Seq<Key>)
    requires
        spec_well_formed(encode_utf8(pep_id), Grammar::Identifier),
        spec_well_formed(encode_utf8(audience), Grammar::Audience),
    ensures
        encode_utf8(document(pep_id, audience, s)).len()
            <= 300 + 2 * MAX_IDENTIFIER_BYTES + encode_utf8(capabilities_json(s)).len(),
{
    let l1 = "{\"profile_version\":1,\"pep_id\":\""@;
    let l2 = "\",\"audience\":\""@;
    let l3 = "\",\"capabilities\":["@;
    let l4 = "]}"@;
    reveal_strlit("{\"profile_version\":1,\"pep_id\":\"");
    reveal_strlit("\",\"audience\":\"");
    reveal_strlit("\",\"capabilities\":[");
    reveal_strlit("]}");
    let c = capabilities_json(s);
    let d = document(pep_id, audience, s);
    assert(d =~= (((((l1 + pep_id) + l2) + audience) + l3) + c) + l4);
    lemma_utf8_concat(((((l1 + pep_id) + l2) + audience) + l3) + c, l4);
    lemma_utf8_concat((((l1 + pep_id) + l2) + audience) + l3, c);
    lemma_utf8_concat(((l1 + pep_id) + l2) + audience, l3);
    lemma_utf8_concat((l1 + pep_id) + l2, audience);
    lemma_utf8_concat(l1 + pep_id, l2);
    lemma_utf8_concat(l1, pep_id);
    lemma_utf8_length_bound(l1);
    lemma_utf8_length_bound(l2);
    lemma_utf8_length_bound(l3);
    lemma_utf8_length_bound(l4);
}

/// A list with no failure from `i` on has no first failure from `i` on.
proof fn lemma_valid_means_no_failure(s: Seq<Key>, i: int)
    requires
        0 <= i <= s.len(),
        forall|k: int| i <= k < s.len() ==> failure_at(s, k) is None,
    ensures
        first_failure_from(s, i) is None,
    decreases s.len() - i,
{
    if i < s.len() {
        lemma_valid_means_no_failure(s, i + 1);
    }
}

/// Ten to the power `k`.
spec fn ten_to(k: nat) -> nat
    decreases k,
{
    if k == 0 { 1 } else { 10 * ten_to((k - 1) as nat) }
}

/// A decimal rendering is ASCII, with at most `k` digits below `10^k`.
proof fn lemma_decimal_ascii(n: nat, k: nat)
    requires
        1 <= k,
        n < ten_to(k),
    ensures
        is_ascii_chars(decimal(n)),
        decimal(n).len() <= k,
    decreases n,
{
    if n >= 10 {
        assert(ten_to(0) == 1);
        assert(ten_to(1) == 10);
        assert(k >= 2);
        assert(n / 10 < ten_to((k - 1) as nat));
        lemma_decimal_ascii(n / 10, (k - 1) as nat);
        let t = decimal(n / 10);
        assert(decimal(n) == t.push(digit(n % 10)));
        assert forall|i: int| 0 <= i < decimal(n).len() implies '\0' <= #[trigger] decimal(n)[i] <= '\u{7f}' by {
            if i < t.len() {
                assert(decimal(n)[i] == t[i]);
            }
        }
    }
}

/// Joining two ASCII texts gives ASCII text.
proof fn lemma_ascii_concat(a: Seq<char>, b: Seq<char>)
    requires
        is_ascii_chars(a),
        is_ascii_chars(b),
    ensures
        is_ascii_chars(a + b),
{
    assert forall|i: int| 0 <= i < (a + b).len() implies '\0' <= #[trigger] (a + b)[i] <= '\u{7f}' by {
        if i < a.len() {
            assert((a + b)[i] == a[i]);
        } else {
            assert((a + b)[i] == b[i - a.len()]);
        }
    }
}

/// A capability of a known type renders as at most 54 ASCII characters.
proof fn lemma_capability_json_ascii(k: Key)
    requires
        known_obligation_type(k.0),
    ensures
        is_ascii_chars(capability_json(k)),
        capability_json(k).len() <= 54,
{
    reveal_strlit("{\"type\":\"");
    reveal_strlit("\",\"version\":");
    reveal_strlit("}");
    reveal_strlit("approval_challenge");
    reveal_strlit("field_annotate");
    reveal_strlit("field_hash");
    reveal_strlit("field_mask");
    reveal_strlit("field_redact");
    reveal_strlit("field_remove");
    reveal_strlit("field_tokenize");
    reveal_strlit("immutable_audit");
    reveal_strlit("notification");
    reveal_strlit("quota_reservation");
    reveal_strlit("response_filter");
    reveal_strlit("route_restriction");
    reveal_strlit("schema_transform");
    reveal_strlit("step_up_authentication");
    let a = "{\"type\":\""@;
    let b = "\",\"version\":"@;
    let c = "}"@;
    assert(is_ascii_chars(a) && is_ascii_chars(b) && is_ascii_chars(c));
    assert(is_ascii_chars(k.0) && k.0.len() <= 22);
    assert(ten_to(10) == 10000000000) by {
        reveal_with_fuel(ten_to, 11);
    }
    lemma_decimal_ascii(k.1 as nat, 10);
    let v = decimal(k.1 as nat);
    lemma_ascii_concat(a, k.0);
    lemma_ascii_concat(a + k.0, b);
    lemma_ascii_concat(a + k.0 + b, v);
    lemma_ascii_concat(a + k.0 + b + v, c);
}

/// The capabilities of known types render as ASCII, at most 55 characters
/// each.
proof fn lemma_capabilities_json_ascii(s: Seq<Key>)
    requires
        forall|i: int| 0 <= i < s.len() ==> known_obligation_type(#[trigger] s[i].0),
    ensures
        is_ascii_chars(capabilities_json(s)),
        capabilities_json(s).len() <= 55 * s.len(),
    decreases s.len(),
{
    if s.len() == 0 {
        assert(capabilities_json(s) =~= Seq::<char>::empty());
    } else if s.len() == 1 {
        lemma_capability_json_ascii(s[0]);
    } else {
        let t = s.drop_last();
        assert forall|i: int| 0 <= i < t.len() implies known_obligation_type(#[trigger] t[i].0) by {
            assert(t[i] == s[i]);
        }
        lemma_capabilities_json_ascii(t);
        lemma_capability_json_ascii(s.last());
        reveal_strlit(",");
        assert(is_ascii_chars(","@));
        lemma_ascii_concat(capabilities_json(t), ","@);
        lemma_ascii_concat(capabilities_json(t) + ","@, capability_json(s.last()));
    }
}

/// An accepted declaration holds its capabilities in canonical order, with
/// no repeat, every type known and every version positive.
pub proof fn law_accepted_capabilities_are_canonical(pep_id: Seq<char>, audience: Seq<char>, caps: Seq<Key>)
    requires
        handshake_outcome(pep_id, audience, caps) is Ok,
    ensures
        ({
            let s = handshake_outcome(pep_id, audience, caps)->Ok_0.0;
            &&& s.to_multiset() == caps.to_multiset()
            &&& forall|i: int, j: int| 0 <= i < j < s.len() ==> key_lt(#[trigger] s[i], #[trigger] s[j])
            &&& forall|i: int| 0 <= i < s.len() ==> known_obligation_type(#[trigger] s[i].0) && s[i].1 > 0
            &&& base64_nopad_len(encode_utf8(document(pep_id, audience, s)).len()) <= MAX_PEP_HANDSHAKE_BYTES
        }),
{
    let s = canonical_of(caps.to_multiset());
    lemma_canonical_exists(caps);
    assert(first_failure_from(s, 0) is None);
    lemma_no_failure_means_valid(s, 0);
    assert forall|i: int, j: int| 0 <= i < j < s.len() implies key_lt(#[trigger] s[i], #[trigger] s[j]) by {
        lemma_strictly_sorted(s, i, j);
    }
    assert forall|i: int| 0 <= i < s.len() implies known_obligation_type(#[trigger] s[i].0) && s[i].1 > 0 by {
        assert(failure_at(s, i) is None);
    }
}

proof fn lemma_no_failure_means_valid(s: Seq<Key>, i: int)
    requires
        0 <= i <= s.len(),
        first_failure_from(s, i) is None,
    ensures
        forall|k: int| i <= k < s.len() ==> failure_at(s, k) is None,
    decreases s.len() - i,
{
    if i < s.len() {
        lemma_no_failure_means_valid(s, i + 1);
    }
}

proof fn lemma_strictly_sorted(s: Seq<Key>, i: int, j: int)
    requires
        sorted(s),
        forall|k: int| 0 <= k < s.len() ==> failure_at(s, k) is None,
        0 <= i < j < s.len(),
    ensures
        key_lt(s[i], s[j]),
    decreases j - i,
{
    assert(failure_at(s, j) is None);
    assert(key_le(s[j - 1], s[j]));
    if i == j - 1 {
    } else {
        lemma_strictly_sorted(s, i, j - 1);
        crate::order::lemma_key_lt_transitive(s[i], s[j - 1], s[j]);
    }
}

/// The canonical arrangement exists, so `canonical_of` names a sorted
/// permutation of its argument.
pub proof fn lemma_canonical_exists(caps: Seq<Key>)
    ensures
        sorted(canonical_of(caps.to_multiset())),
        canonical_of(caps.to_multiset()).to_multiset() == caps.to_multiset(),
{
    let r = sort_spec_witness(caps);
    assert(sorted(r) && r.to_multiset() == caps.to_multiset());
}

/// A sorted permutation of `caps`, built by insertion.
proof fn sort_spec_witness(caps: Seq<Key>) -> (r: Seq<Key>)
    ensures
        sorted(r),
        r.to_multiset() == caps.to_multiset(),
    decreases caps.len(),
{
    broadcast use group_to_multiset_ensures;

    if caps.len() == 0 {
        assert(caps.to_multiset() =~= Multiset::empty());
        Seq::empty()
    } else {
        let rest = sort_spec_witness(caps.drop_last());
        let x = caps.last();
        let p = insertion_point(rest, x);
        lemma_insert_sorted(rest, p, x);
        to_multiset_insert(rest, p, x);
        assert(caps =~= caps.drop_last().push(x));
        rest.insert(p, x)
    }
}

/// The first position whose key is strictly above `x`.
proof fn insertion_point(s: Seq<Key>, x: Key) -> (p: int)
    requires
        sorted(s),
    ensures
        0 <= p <= s.len(),
        forall|k: int| 0 <= k < p ==> key_le(#[trigger] s[k], x),
        p < s.len() ==> key_lt(x, s[p]),
    decreases s.len(),
{
    if s.len() == 0 {
        0
    } else {
        lemma_key_total(s.last(), x);
        if key_le(s.last(), x) {
            assert forall|k: int| 0 <= k < s.len() implies key_le(#[trigger] s[k], x) by {
                if k < s.len() - 1 {
                    assert(key_le(s[k], s.last()));
                    crate::order::lemma_key_le_transitive(s[k], s.last(), x);
                }
            }
            s.len() as int
        } else {
            let t = s.drop_last();
            assert(sorted(t)) by {
                assert forall|i: int, j: int| 0 <= i < j < t.len() implies #[trigger] key_le(t[i], t[j]) by {
                    assert(key_le(s[i], s[j]));
                }
            }
            let q = insertion_point(t, x);
            assert forall|k: int| 0 <= k < q implies key_le(#[trigger] s[k], x) by {
                assert(t[k] == s[k]);
            }
            if q < t.len() {
                assert(t[q] == s[q]);
            }
            q
        }
    }
}

// ---------------------------------------------------------------------------
// The executable path
// ---------------------------------------------------------------------------

/// `key_lt` on two keys given by their characters and versions.
fn key_lt_exec(a: &[char], va: u32, b: &[char], vb: u32) -> (r: bool)
    ensures
        r == key_lt((a@, va), (b@, vb)),
{
    lex_lt_exec(a, b) || (seq_eq(a, b) && va < vb)
}

/// Sorts the declared set into canonical order.
fn sort_capabilities(caps: Vec<PEPCapability>) -> (r: (Vec<PEPCapability>, Vec<Vec<char>>))
    ensures
        sorted(keys(r.0@)),
        keys(r.0@).to_multiset() == keys(caps@).to_multiset(),
        r.1@.len() == r.0@.len(),
        forall|k: int| 0 <= k < r.0@.len() ==> (#[trigger] r.1@[k])@ == r.0@[k].type_@,
{
    broadcast use group_to_multiset_ensures;

    let ghost original = caps@;
    let mut rest = caps;
    let mut out: Vec<PEPCapability> = Vec::new();
    let mut names: Vec<Vec<char>> = Vec::new();
    assert(original.subrange(0, original.len() as int) =~= original);
    while rest.len() > 0
        invariant
            rest@ == original.subrange(0, rest@.len() as int),
            rest@.len() <= original.len(),
            names@.len() == out@.len(),
            forall|k: int| 0 <= k < out@.len() ==> (#[trigger] names@[k])@ == out@[k].type_@,
            sorted(keys(out@)),
            keys(out@).to_multiset() == keys(original.subrange(rest@.len() as int, original.len() as int)).to_multiset(),
        decreases rest@.len(),
    {
        let ghost n = rest@.len();
        let c = rest.pop().unwrap();
        let name = chars_of(c.type_.as_str());
        // The first position whose key is strictly above `c`.
        let mut q: usize = 0;
        while q < out.len() && !key_lt_exec(name.as_slice(), c.version, names[q].as_slice(), out[q].version)
            invariant
                q <= out@.len(),
                names@.len() == out@.len(),
                forall|k: int| 0 <= k < out@.len() ==> (#[trigger] names@[k])@ == out@[k].type_@,
                name@ == c.type_@,
                forall|k: int| 0 <= k < q ==> key_le(#[trigger] keys(out@)[k], c.key()),
            decreases out@.len() - q,
        {
            proof {
                lemma_key_total(keys(out@)[q as int], c.key());
            }
            q += 1;
        }
        let p = q;
        proof {
            if p < out@.len() {
                assert(key_lt(c.key(), keys(out@)[p as int]));
            }
            lemma_insert_sorted(keys(out@), p as int, c.key());
            to_multiset_insert(keys(out@), p as int, c.key());
            assert(keys(out@).insert(p as int, c.key()) =~= keys(out@.insert(p as int, c)));
            let tail = original.subrange(n - 1, original.len() as int);
            assert(tail =~= seq![c] + original.subrange(n as int, original.len() as int));
            assert(keys(tail) =~= seq![c.key()] + keys(original.subrange(n as int, original.len() as int)));
            let kr = keys(original.subrange(n as int, original.len() as int));
            lemma_multiset_commutative(seq![c.key()], kr);
            crate::order::lemma_singleton_multiset(c.key());
        }
        out.insert(p, c);
        names.insert(p, name);
    }
    (out, names)
}

/// Validates and sorts the declared set, in the platform's order of checks:
/// the count first, then each capability in canonical order.
pub fn canonical_capabilities(capabilities: Vec<PEPCapability>) -> (r: Result<Vec<PEPCapability>, PEPHandshakeError>)
    ensures
        match r {
            Ok(v) => capabilities@.len() <= MAX_PEP_HANDSHAKE_CAPABILITIES
                && keys(v@) == canonical_of(keys(capabilities@).to_multiset())
                && first_failure_from(keys(v@), 0) is None,
            Err(e) => e.spec_pointer() == "/capabilities"@ && if capabilities@.len() > MAX_PEP_HANDSHAKE_CAPABILITIES {
                e.spec_message() == count_message(capabilities@.len())
            } else {
                first_failure_from(canonical_of(keys(capabilities@).to_multiset()), 0) == Some(e.spec_message())
            },
        },
{
    if capabilities.len() > MAX_PEP_HANDSHAKE_CAPABILITIES {
        let mut m = owned("declares ");
        let n = to_decimal(capabilities.len() as u64);
        append(&mut m, n.as_str());
        append(&mut m, " capabilities; the platform reads at most 64");
        return Err(PEPHandshakeError::new("/capabilities", m));
    }
    let ghost input = keys(capabilities@);
    let (sorted_caps, names) = sort_capabilities(capabilities);
    proof {
        lemma_canonical_exists(input);
        lemma_sorted_unique(keys(sorted_caps@), canonical_of(input.to_multiset()));
    }
    let ghost s = keys(sorted_caps@);
    assert(input == keys(capabilities@));
    let mut i: usize = 0;
    while i < sorted_caps.len()
        invariant
            i <= sorted_caps@.len(),
            s == keys(sorted_caps@),
            s == canonical_of(keys(capabilities@).to_multiset()),
            capabilities@.len() <= MAX_PEP_HANDSHAKE_CAPABILITIES,
            names@.len() == sorted_caps@.len(),
            forall|k: int| 0 <= k < sorted_caps@.len() ==> (#[trigger] names@[k])@ == sorted_caps@[k].type_@,
            first_failure_from(s, 0) == first_failure_from(s, i as int),
        decreases sorted_caps@.len() - i,
    {
        let c = &sorted_caps[i];
        assert(s[i as int] == c.key());
        if !AuthZenObligationType::is_known_wire_value(c.type_.as_str()) {
            let mut m = owned("names obligation type ");
            let q = debug_quote(c.type_.as_str());
            append(&mut m, q.as_str());
            append(&mut m, ", which is not one of ");
            append(&mut m, KNOWN_OBLIGATION_TYPES_RENDERED);
            return Err(PEPHandshakeError::new("/capabilities", m));
        }
        if c.version == 0 {
            let mut m = owned("declares ");
            let q = debug_quote(c.type_.as_str());
            append(&mut m, q.as_str());
            append(&mut m, " at version 0; a version is a positive integer");
            return Err(PEPHandshakeError::new("/capabilities", m));
        }
        if i > 0 && seq_eq(names[i - 1].as_slice(), names[i].as_slice()) && sorted_caps[i - 1].version == c.version {
            assert(s[i - 1] == s[i as int]);
            let mut m = owned("declares ");
            let q = debug_quote(c.type_.as_str());
            append(&mut m, q.as_str());
            append(&mut m, " at version ");
            let v = to_decimal(c.version as u64);
            append(&mut m, v.as_str());
            append(&mut m, " more than once; the platform refuses a repeated capability");
            return Err(PEPHandshakeError::new("/capabilities", m));
        }
        proof {
            if i > 0 {
                assert(s[i - 1] != s[i as int]);
            }
            assert(failure_at(s, i as int) is None);
        }
        i += 1;
    }
    Ok(sorted_caps)
}

/// The compact JSON document, then unpadded base64url.
fn encode(pep_id: &str, audience: &str, capabilities: &[PEPCapability]) -> (r: String)
    ensures
        r@ == header_of(pep_id@, audience@, keys(capabilities@)),
        r@.len() == base64_nopad_len(encode_utf8(document(pep_id@, audience@, keys(capabilities@))).len()),
{
    let mut members = String::new();
    let mut i: usize = 0;
    while i < capabilities.len()
        invariant
            i <= capabilities@.len(),
            members@ == capabilities_json(keys(capabilities@.subrange(0, i as int))),
        decreases capabilities@.len() - i,
    {
        let c = &capabilities[i];
        let ghost before = keys(capabilities@.subrange(0, i as int));
        let ghost after = keys(capabilities@.subrange(0, i + 1));
        proof {
            assert(after.drop_last() =~= before);
            assert(after.last() == c.key());
        }
        if i > 0 {
            append(&mut members, ",");
        }
        append(&mut members, "{\"type\":\"");
        append(&mut members, c.type_.as_str());
        append(&mut members, "\",\"version\":");
        let v = to_decimal(c.version as u64);
        append(&mut members, v.as_str());
        append(&mut members, "}");
        proof {
            if i == 0 {
                assert(before.len() == 0);
                assert(after.len() == 1);
            }
        }
        i += 1;
    }
    assert(capabilities@.subrange(0, capabilities@.len() as int) =~= capabilities@);
    let mut document = owned("{\"profile_version\":1,\"pep_id\":\"");
    append(&mut document, pep_id);
    append(&mut document, "\",\"audience\":\"");
    append(&mut document, audience);
    append(&mut document, "\",\"capabilities\":[");
    append(&mut document, members.as_str());
    append(&mut document, "]}");
    encode_base64_url_nopad(document.as_str().as_bytes())
}

impl PEPHandshake {
    /// Validates a declaration by the platform's rules and encodes it.
    ///
    /// `pep_id` is checked first, then `audience`, then the capability count,
    /// then each capability in canonical order, then the size of the whole
    /// header; the first rule broken is the refusal.
    pub fn new(pep_id: &str, audience: &str, capabilities: Vec<PEPCapability>) -> (r: Result<Self, PEPHandshakeError>)
        ensures
            handshake_view(r) == handshake_outcome(pep_id@, audience@, keys(capabilities@)),
            r is Ok ==> r->Ok_0.spec_pep_id() == pep_id@ && r->Ok_0.spec_audience() == audience@,
    {
        if !well_formed(pep_id, Grammar::Identifier) {
            let mut m = debug_quote(pep_id);
            append(&mut m, " is not of the form [a-z0-9][a-z0-9._-]* with at most 128 bytes");
            return Err(PEPHandshakeError::new("/pep_id", m));
        }
        if !well_formed(audience, Grammar::Audience) {
            let mut m = debug_quote(audience);
            append(&mut m, " is not of the form [A-Za-z0-9][A-Za-z0-9._:/-]* with at most 128 bytes");
            return Err(PEPHandshakeError::new("/audience", m));
        }
        let capabilities = match canonical_capabilities(capabilities) {
            Ok(c) => c,
            Err(e) => return Err(e),
        };
        let header_value = encode(pep_id, audience, capabilities.as_slice());
        let n = header_value.as_str().unicode_len();
        if n > MAX_PEP_HANDSHAKE_BYTES {
            let mut m = owned("encodes to ");
            let d = to_decimal(n as u64);
            append(&mut m, d.as_str());
            append(&mut m, " bytes; the header carries at most 4096");
            proof {
                reveal_strlit("");
                assert(""@ =~= Seq::<char>::empty());
            }
            return Err(PEPHandshakeError::new("", m));
        }
        Ok(PEPHandshake { pep_id: owned(pep_id), audience: owned(audience), capabilities, header_value })
    }

    /// The enforcement point's name within the client's credential.
    pub fn pep_id(&self) -> (r: &str)
        ensures
            r@ == self.spec_pep_id(),
    {
        self.pep_id.as_str()
    }

    /// The audience a decision proof is bound to.
    pub fn audience(&self) -> (r: &str)
        ensures
            r@ == self.spec_audience(),
    {
        self.audience.as_str()
    }

    /// The declared capabilities, in canonical `(type, version)` order.
    pub fn capabilities(&self) -> (r: &[PEPCapability])
        ensures
            r@ == self.spec_capabilities(),
    {
        self.capabilities.as_slice()
    }

    /// The `X-Axonflow-PEP-Handshake` value this declaration is sent as.
    pub fn header_value(&self) -> (r: &str)
        ensures
            r@ == self.spec_header_value(),
    {
        self.header_value.as_str()
    }
}


/// Whether a request to `url` goes to a route that reads the declaration:
/// the configured endpoint followed by `decide`, the AuthZEN evaluation or
/// the MCP check-input round trip. No other route carries it.
pub open spec fn handshake_route(url: Seq<char>, endpoint: Seq<char>) -> bool {
    ||| url == endpoint + DECIDE_PATH@
    ||| url == endpoint + AUTHZEN_PATH@
    ||| url == endpoint + REQUEST_REDACTION_PATH@
}

fn joined(endpoint: &str, route: &str) -> (r: String)
    ensures
        r@ == endpoint@ + route@,
{
    let mut r = owned(endpoint);
    append(&mut r, route);
    r
}

/// The `X-Axonflow-PEP-Handshake` value a request to `url` carries: the
/// declaration's, when one is configured and `url` is a route that reads it;
/// nothing otherwise. Absent is not empty: without a declaration no header
/// is sent.
pub fn handshake_for<'a>(declared: Option<&'a PEPHandshake>, url: &str, endpoint: &str) -> (r: Option<&'a str>)
    ensures
        match declared {
            Some(h) => if handshake_route(url@, endpoint@) {
                r is Some && r->0@ == h.spec_header_value()
            } else {
                r is None
            },
            None => r is None,
        },
{
    match declared {
        Some(h) => {
            let decide = joined(endpoint, DECIDE_PATH);
            let evaluation = joined(endpoint, AUTHZEN_PATH);
            let check_input = joined(endpoint, REQUEST_REDACTION_PATH);
            if str_eq(url, decide.as_str()) || str_eq(url, evaluation.as_str()) || str_eq(url, check_input.as_str()) {
                Some(h.header_value())
            } else {
                None
            }
        },
        None => None,
    }
}

} // verus!
