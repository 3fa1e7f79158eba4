//! The URLs the client builds: path segments percent-encoded with the
//! `PATH_SEGMENT` set, and the query strings of the list calls, with absent
//! filters omitted so the platform applies its tier defaults.

use vstd::prelude::*;
use vstd::utf8::encode_utf8;
use crate::error::AxonFlowError;
use crate::read_identity::{read_scope_refusal, ReadScope};
use crate::text::{append, decimal, owned, push_char, to_decimal};

verus! {

/// Whether `PATH_SEGMENT` encodes byte `b`: a control character, any byte
/// outside ASCII, and ` "<>` `` ` `` `\{}#?/%`.
pub open spec fn encoded_in_path_segment(b: u8) -> bool {
    ||| b < 0x20
    ||| b >= 0x7f
    ||| b == 0x20
    ||| b == 0x22
    ||| b == 0x3c
    ||| b == 0x3e
    ||| b == 0x60
    ||| b == 0x5c
    ||| b == 0x7b
    ||| b == 0x7d
    ||| b == 0x23
    ||| b == 0x3f
    ||| b == 0x2f
    ||| b == 0x25
}

/// An upper-case hexadecimal digit.
pub open spec fn hex_digit(n: u8) -> char {
    if n < 10 {
        ((n + 0x30) as u8) as char
    } else {
        ((n - 10 + 0x41) as u8) as char
    }
}

/// One byte, percent-encoded when the set holds it.
pub open spec fn encoded_byte(b: u8) -> Seq<char> {
    if encoded_in_path_segment(b) {
        seq!['%', hex_digit(b / 16), hex_digit(b % 16)]
    } else {
        seq![b as char]
    }
}

/// `utf8_percent_encode(_, PATH_SEGMENT)` of some bytes.
pub open spec fn percent_encoded(bytes: Seq<u8>) -> Seq<char>
    decreases bytes.len(),
{
    if bytes.len() == 0 {
        Seq::empty()
    } else {
        percent_encoded(bytes.drop_last()) + encoded_byte(bytes.last())
    }
}

/// No character of a one-byte encoding ends a path segment.
proof fn lemma_encoded_byte_stays_in_segment(b: u8)
    ensures
        forall|i: int| 0 <= i < encoded_byte(b).len() ==> {
            let c = #[trigger] encoded_byte(b)[i];
            c != '/' && c != '?' && c != '#'
        },
{
    if encoded_in_path_segment(b) {
        let hi = b / 16;
        let lo = b % 16;
        assert(hi < 16 && lo < 16);
        assert(hex_digit(hi) != '/' && hex_digit(hi) != '?' && hex_digit(hi) != '#');
        assert(hex_digit(lo) != '/' && hex_digit(lo) != '?' && hex_digit(lo) != '#');
    } else {
        assert(b != 0x2f && b != 0x3f && b != 0x23);
        assert((b as char) != '/' && (b as char) != '?' && (b as char) != '#');
    }
}

/// An identifier cannot leave its path segment: its encoding holds no `/`,
/// `?` or `#`, so whatever an id contains, the URL built around it still
/// names the one resource it was built for.
pub proof fn law_an_encoded_segment_stays_one_segment(bytes: Seq<u8>)
    ensures
        forall|i: int| 0 <= i < percent_encoded(bytes).len() ==> {
            let c = #[trigger] percent_encoded(bytes)[i];
            c != '/' && c != '?' && c != '#'
        },
    decreases bytes.len(),
{
    if bytes.len() > 0 {
        law_an_encoded_segment_stays_one_segment(bytes.drop_last());
        lemma_encoded_byte_stays_in_segment(bytes.last());
        let head = percent_encoded(bytes.drop_last());
        let tail = encoded_byte(bytes.last());
        assert(percent_encoded(bytes) == head + tail);
        assert forall|i: int| 0 <= i < percent_encoded(bytes).len() implies {
            let c = #[trigger] percent_encoded(bytes)[i];
            c != '/' && c != '?' && c != '#'
        } by {
            if i < head.len() {
                assert(percent_encoded(bytes)[i] == head[i]);
            } else {
                assert(percent_encoded(bytes)[i] == tail[i - head.len()]);
            }
        }
    }
}

fn hex_char(n: u8) -> (c: char)
    requires
        n < 16,
    ensures
        c == hex_digit(n),
{
    if n < 10 {
        (n + 0x30) as char
    } else {
        (n - 10 + 0x41) as char
    }
}

/// `s` as one percent-encoded path segment.
pub fn encode_path_segment(s: &str) -> (r: String)
    ensures
        r@ == percent_encoded(encode_utf8(s@)),
{
    let bytes = s.as_bytes();
    let mut r = String::new();
    let mut i: usize = 0;
    proof {
        reveal_strlit("");
        assert(bytes@.subrange(0, 0) =~= Seq::<u8>::empty());
    }
    while i < bytes.len()
        invariant
            i <= bytes@.len(),
            bytes@ == encode_utf8(s@),
            r@ == percent_encoded(bytes@.subrange(0, i as int)),
        decreases bytes@.len() - i,
    {
        let b = bytes[i];
        let ghost before = r@;
        if b < 0x20 || b >= 0x7f || b == 0x20 || b == 0x22 || b == 0x3c || b == 0x3e || b == 0x60 || b == 0x5c || b
            == 0x7b || b == 0x7d || b == 0x23 || b == 0x3f || b == 0x2f || b == 0x25 {
            push_char(&mut r, '%');
            push_char(&mut r, hex_char(b / 16));
            push_char(&mut r, hex_char(b % 16));
        } else {
            push_char(&mut r, b as char);
        }
        proof {
            assert(bytes@.subrange(0, i + 1).drop_last() =~= bytes@.subrange(0, i as int));
            assert(r@ =~= before + encoded_byte(b));
        }
        i += 1;
    }
    proof {
        assert(bytes@.subrange(0, bytes@.len() as int) =~= bytes@);
    }
    r
}

/// One `key=value` pair of a query, the value percent-encoded.
pub open spec fn query_pair(key: Seq<char>, value: Seq<char>) -> Seq<char> {
    key + "="@ + percent_encoded(encode_utf8(value))
}

/// Pairs joined with `&`.
pub open spec fn joined_pairs(pairs: Seq<Seq<char>>) -> Seq<char>
    decreases pairs.len(),
{
    if pairs.len() == 0 {
        Seq::empty()
    } else if pairs.len() == 1 {
        pairs[0]
    } else {
        joined_pairs(pairs.drop_last()) + "&"@ + pairs.last()
    }
}

/// Appends one pair to a query under construction.
fn add_pair(q: &mut String, pairs: Ghost<Seq<Seq<char>>>, key: &str, value: &str) -> (r: Ghost<Seq<Seq<char>>>)
    requires
        old(q)@ == joined_pairs(pairs@),
        forall|i: int| 0 <= i < pairs@.len() ==> (#[trigger] pairs@[i]).len() > 0,
    ensures
        r@ == pairs@.push(query_pair(key@, value@)),
        final(q)@ == joined_pairs(r@),
        forall|i: int| 0 <= i < r@.len() ==> (#[trigger] r@[i]).len() > 0,
{
    let ghost next = pairs@.push(query_pair(key@, value@));
    proof {
        assert(next.drop_last() =~= pairs@);
        reveal_strlit("=");
        reveal_strlit("");
        if pairs@.len() > 0 {
            lemma_joined_nonempty(pairs@);
        }
    }
    if !q.as_str().is_empty() {
        append(q, "&");
    }
    append(q, key);
    append(q, "=");
    let v = encode_path_segment(value);
    append(q, v.as_str());
    proof {
        if pairs@.len() == 0 {
            assert(q@ =~= query_pair(key@, value@));
        } else {
            assert(q@ =~= joined_pairs(pairs@) + "&"@ + query_pair(key@, value@));
        }
    }
    Ghost(next)
}

proof fn lemma_joined_nonempty(pairs: Seq<Seq<char>>)
    requires
        pairs.len() > 0,
        forall|i: int| 0 <= i < pairs.len() ==> (#[trigger] pairs[i]).len() > 0,
    ensures
        joined_pairs(pairs).len() > 0,
{
    reveal_strlit("&");
    if pairs.len() > 1 {
        assert(pairs.last() == pairs[pairs.len() - 1]);
    }
}

/// The text of a signed integer.
pub open spec fn signed_decimal(v: i64) -> Seq<char> {
    if v < 0 {
        "-"@ + decimal((-v) as nat)
    } else {
        decimal(v as nat)
    }
}

/// The text of a signed integer.
pub fn i64_text(v: i64) -> (r: String)
    ensures
        r@ == signed_decimal(v),
{
    if v < 0 {
        let magnitude: u64 = if v == i64::MIN {
            9_223_372_036_854_775_808
        } else {
            (-v) as u64
        };
        let mut r = owned("-");
        let d = to_decimal(magnitude);
        append(&mut r, d.as_str());
        r
    } else {
        to_decimal(v as u64)
    }
}

/// What a given filter contributes: a pair when it is set.
pub open spec fn opt_pair(key: Seq<char>, value: Option<Seq<char>>) -> Seq<Seq<char>> {
    match value {
        Some(v) => seq![query_pair(key, v)],
        None => Seq::empty(),
    }
}

pub open spec fn opt_text(v: Option<String>) -> Option<Seq<char>> {
    match v {
        Some(s) => Some(s@),
        None => None,
    }
}

/// The query of a HITL queue listing: `status`, `severity`, `limit`,
/// `offset`, each only when set, in that order.
pub open spec fn hitl_query(status: Option<String>, severity: Option<String>, limit: Option<i64>, offset: Option<i64>) -> Seq<char> {
    joined_pairs(
        opt_pair("status"@, opt_text(status)) + opt_pair("severity"@, opt_text(severity)) + opt_pair(
            "limit"@,
            match limit {
                Some(v) => Some(signed_decimal(v)),
                None => None,
            },
        ) + opt_pair(
            "offset"@,
            match offset {
                Some(v) => Some(signed_decimal(v)),
                None => None,
            },
        ),
    )
}

/// Builds the query string of a HITL queue listing.
pub fn build_list_query(opts: &crate::types::hitl::HITLQueueListOptions) -> (r: String)
    ensures
        r@ == hitl_query(opts.status, opts.severity, opts.limit, opts.offset),
{
    let status = &opts.status;
    let severity = &opts.severity;
    let limit = opts.limit;
    let offset = opts.offset;
    let mut q = String::new();
    let mut pairs: Ghost<Seq<Seq<char>>> = Ghost(Seq::empty());
    proof {
        reveal_strlit("");
    }
    match status {
        Some(v) => {
            pairs = add_pair(&mut q, pairs, "status", v.as_str());
        },
        None => {},
    }
    match severity {
        Some(v) => {
            pairs = add_pair(&mut q, pairs, "severity", v.as_str());
        },
        None => {},
    }
    match limit {
        Some(v) => {
            let t = i64_text(v);
            pairs = add_pair(&mut q, pairs, "limit", t.as_str());
        },
        None => {},
    }
    match offset {
        Some(v) => {
            let t = i64_text(v);
            pairs = add_pair(&mut q, pairs, "offset", t.as_str());
        },
        None => {},
    }
    proof {
        let expected = opt_pair("status"@, opt_text(*status)) + opt_pair("severity"@, opt_text(*severity)) + opt_pair(
            "limit"@,
            match limit {
                Some(v) => Some(signed_decimal(v)),
                None => None,
            },
        ) + opt_pair(
            "offset"@,
            match offset {
                Some(v) => Some(signed_decimal(v)),
                None => None,
            },
        );
        assert(pairs@ =~= expected);
    }
    q
}

/// The RFC 3339 text, to the second and with a `Z`, of an instant given
/// in seconds since the Unix epoch, when `chrono` can represent it.
pub uninterp spec fn rfc3339_seconds(secs: i64) -> Option<Seq<char>>;

/// `chrono::DateTime::from_timestamp(secs, 0)`, then
/// `to_rfc3339_opts(SecondsFormat::Secs, true)`.
#[verifier::external_body]
fn format_instant(secs: i64) -> (r: Option<String>)
    ensures
        match r {
            Some(t) => rfc3339_seconds(secs) == Some(t@),
            None => rfc3339_seconds(secs) is None,
        },
{
    match chrono::DateTime::from_timestamp(secs, 0) {
        Some(d) => Some(d.to_rfc3339_opts(chrono::SecondsFormat::Secs, true)),
        None => None,
    }
}

/// The query of a decision listing: `since`, `decision`, `policy_id`,
/// `tool_signature`, `limit`, each only when set, in that order. An instant
/// `chrono` cannot represent is left out.
pub open spec fn decisions_query(
    since: Option<i64>,
    decision: Option<String>,
    policy_id: Option<String>,
    tool_signature: Option<String>,
    limit: Option<u32>,
) -> Seq<char> {
    joined_pairs(
        opt_pair(
            "since"@,
            match since {
                Some(s) => rfc3339_seconds(s),
                None => None,
            },
        ) + opt_pair("decision"@, opt_text(decision)) + opt_pair("policy_id"@, opt_text(policy_id)) + opt_pair(
            "tool_signature"@,
            opt_text(tool_signature),
        ) + opt_pair(
            "limit"@,
            match limit {
                Some(v) => Some(decimal(v as nat)),
                None => None,
            },
        ),
    )
}

/// Builds the query string of a decision listing.
pub fn build_decisions_query(opts: &crate::types::decisions::ListDecisionsOptions) -> (r: String)
    ensures
        r@ == decisions_query(opts.since, opts.decision, opts.policy_id, opts.tool_signature, opts.limit),
{
    let mut q = String::new();
    let mut pairs: Ghost<Seq<Seq<char>>> = Ghost(Seq::empty());
    proof {
        reveal_strlit("");
    }
    let since = match opts.since {
        Some(s) => format_instant(s),
        None => None,
    };
    match &since {
        Some(v) => {
            pairs = add_pair(&mut q, pairs, "since", v.as_str());
        },
        None => {},
    }
    match &opts.decision {
        Some(v) => {
            pairs = add_pair(&mut q, pairs, "decision", v.as_str());
        },
        None => {},
    }
    match &opts.policy_id {
        Some(v) => {
            pairs = add_pair(&mut q, pairs, "policy_id", v.as_str());
        },
        None => {},
    }
    match &opts.tool_signature {
        Some(v) => {
            pairs = add_pair(&mut q, pairs, "tool_signature", v.as_str());
        },
        None => {},
    }
    match opts.limit {
        Some(v) => {
            let t = to_decimal(v as u64);
            pairs = add_pair(&mut q, pairs, "limit", t.as_str());
        },
        None => {},
    }
    proof {
        let expected = opt_pair(
            "since"@,
            match opts.since {
                Some(s) => rfc3339_seconds(s),
                None => None,
            },
        ) + opt_pair("decision"@, opt_text(opts.decision)) + opt_pair("policy_id"@, opt_text(opts.policy_id))
            + opt_pair("tool_signature"@, opt_text(opts.tool_signature)) + opt_pair(
            "limit"@,
            match opts.limit {
                Some(v) => Some(decimal(v as nat)),
                None => None,
            },
        );
        assert(pairs@ =~= expected);
    }
    q
}

/// A URL with its query: the base alone for an empty query, `base?query`
/// otherwise.
pub fn with_query(base: String, query: &str) -> (r: String)
    ensures
        query@.len() == 0 ==> r == base,
        query@.len() > 0 ==> r@ == base@ + "?"@ + query@,
{
    if query.is_empty() {
        base
    } else {
        let mut r = base;
        append(&mut r, "?");
        append(&mut r, query);
        r
    }
}

/// `endpoint + prefix + encoded(id) + suffix`.
pub open spec fn id_url(endpoint: Seq<char>, prefix: Seq<char>, id: Seq<char>, suffix: Seq<char>) -> Seq<char> {
    endpoint + prefix + percent_encoded(encode_utf8(id)) + suffix
}

/// A URL naming one resource by its id, the id percent-encoded as a path
/// segment so a `/` or `?` in it cannot change the route.
pub fn resource_url(endpoint: &str, prefix: &str, id: &str, suffix: &str) -> (r: String)
    ensures
        r@ == id_url(endpoint@, prefix@, id@, suffix@),
{
    let mut r = owned(endpoint);
    append(&mut r, prefix);
    let e = encode_path_segment(id);
    append(&mut r, e.as_str());
    append(&mut r, suffix);
    r
}

/// The explanation URL of a decision; a configuration error for an empty id.
pub fn explain_url(endpoint: &str, decision_id: &str) -> (r: Result<String, AxonFlowError>)
    ensures
        decision_id@.len() == 0 ==> (r matches Err(AxonFlowError::ConfigError(m)) && m@ == "decision_id is required"@),
        decision_id@.len() > 0 ==> (r matches Ok(u) && u@ == id_url(endpoint@, "/api/v1/decisions/"@, decision_id@, "/explain"@)),
{
    if decision_id.is_empty() {
        return Err(AxonFlowError::ConfigError(owned("decision_id is required")));
    }
    Ok(resource_url(endpoint, "/api/v1/decisions/", decision_id, "/explain"))
}

/// The URL of a HITL queue entry, optionally with an action; a
/// configuration error for an empty id.
pub fn hitl_request_url(endpoint: &str, request_id: &str, action: Option<&str>) -> (r: Result<String, AxonFlowError>)
    ensures
        request_id@.len() == 0 ==> (r matches Err(AxonFlowError::ConfigError(m)) && m@ == "request_id is required"@),
        request_id@.len() > 0 ==> (r matches Ok(u) && u@ == id_url(
            endpoint@,
            "/api/v1/hitl/queue/"@,
            request_id@,
            match action {
                Some(a) => "/"@ + a@,
                None => Seq::empty(),
            },
        )),
{
    if request_id.is_empty() {
        return Err(AxonFlowError::ConfigError(owned("request_id is required")));
    }
    let suffix = match action {
        Some(a) => {
            let mut s = owned("/");
            append(&mut s, a);
            s
        },
        None => {
            proof {
                reveal_strlit("");
            }
            String::new()
        },
    };
    Ok(resource_url(endpoint, "/api/v1/hitl/queue/", request_id, suffix.as_str()))
}

/// The first required member of a new HITL request that is empty:
/// `client_id`, then `original_query`, then `request_type`.
pub fn hitl_create_problem(client_id: &str, original_query: &str, request_type: &str) -> (r: Option<AxonFlowError>)
    ensures
        client_id@.len() == 0 ==> (r matches Some(AxonFlowError::ConfigError(m)) && m@ == "client_id is required"@),
        client_id@.len() > 0 && original_query@.len() == 0 ==> (r matches Some(AxonFlowError::ConfigError(m)) && m@
            == "original_query is required"@),
        client_id@.len() > 0 && original_query@.len() > 0 && request_type@.len() == 0 ==> (r matches Some(
            AxonFlowError::ConfigError(m),
        ) && m@ == "request_type is required"@),
        client_id@.len() > 0 && original_query@.len() > 0 && request_type@.len() > 0 ==> r is None,
{
    if client_id.is_empty() {
        return Some(AxonFlowError::ConfigError(owned("client_id is required")));
    }
    if original_query.is_empty() {
        return Some(AxonFlowError::ConfigError(owned("original_query is required")));
    }
    if request_type.is_empty() {
        return Some(AxonFlowError::ConfigError(owned("request_type is required")));
    }
    None
}

/// Whether a page of the HITL queue is followed by more: what came before
/// it and what it holds fall short of the total.
pub fn hitl_has_more(offset: i64, returned: usize, total: i64) -> (r: bool)
    ensures
        r == (offset + returned < total),
{
    (offset as i128) + (returned as i128) < (total as i128)
}

/// What a non-success answer to a decision listing comes to: the tier cap
/// with its envelope for a `429` whose body decodes as one, the API error
/// with the body otherwise. `envelope` is the body decoded as an envelope,
/// when it decodes.
pub fn listing_failure(status: u16, envelope: Option<crate::types::decisions::RateLimitEnvelope>, body: String) -> (e: AxonFlowError)
    ensures
        status == 429 && envelope is Some ==> (e matches AxonFlowError::RateLimited { envelope: b } && *b == envelope->0),
        !(status == 429 && envelope is Some) ==> e == (AxonFlowError::ApiError { status, message: body }),
{
    if status == 429 {
        match envelope {
            Some(env) => {
                return AxonFlowError::RateLimited { envelope: Box::new(env) };
            },
            None => {},
        }
    }
    AxonFlowError::ApiError { status, message: body }
}


/// What a failed explain read comes to: a `404` under a scope that explains
/// it (no identity resolved, or the read narrowed to the caller's own rows) is
/// the read-scope refusal naming the decision; anything else is the status
/// with its body.
pub fn explain_failure(decision_id: &str, scope: ReadScope, status: u16, body: String) -> (e: AxonFlowError)
    ensures
        (status == 404 && (scope is NoIdentity || scope is OwnRows)) ==> (e matches AxonFlowError::ReadScope(r)
            && r.resource@ == "decision"@ && r.identifier is Some && r.identifier->Some_0@ == decision_id@
            && r.scope == scope && r.status == status),
        !(status == 404 && (scope is NoIdentity || scope is OwnRows)) ==> e == (AxonFlowError::ApiError { status, message: body }),
{
    if status == 404 {
        match read_scope_refusal("decision", Some(decision_id), scope, status) {
            Some(r) => {
                return AxonFlowError::ReadScope(Box::new(r));
            },
            None => {},
        }
    }
    AxonFlowError::ApiError { status, message: body }
}

} // verus!
