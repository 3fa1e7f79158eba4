//! Decision Mode PEP: decide, fulfil, forward. A PEP built on this library
//! holds NO redaction logic of its own: the only way it discharges a
//! `redact_pii` obligation is the engine round trip the obligation names,
//! and an obligation the engine cannot discharge fails closed.

use vstd::prelude::*;
use crate::error::AxonFlowError;
use crate::text::{append, chars_of, debug_quote, debug_quoted, is_white_space, owned, seq_eq, slice_chars, str_eq, trim, trim_chars, trim_end, trim_start};
use crate::types::pep::{MCPCheckInputResponse, Obligation};

verus! {

/// The obligation a PEP discharges by replacing request content with
/// engine-redacted content.
pub const OBLIGATION_REDACT_PII: &'static str = "redact_pii";

/// Fulfilment phase: before the call.
pub const PHASE_REQUEST: &'static str = "request";

/// Fulfilment phase: after the call.
pub const PHASE_RESPONSE: &'static str = "response";

/// The one redaction content type wired today.
pub const CONTENT_TYPE_TEXT: &'static str = "text/plain";

pub const VERDICT_ALLOW: &'static str = "allow";
pub const VERDICT_DENY: &'static str = "deny";
pub const VERDICT_NEEDS_APPROVAL: &'static str = "needs_approval";

/// The verdict endpoint.
pub const DECIDE_PATH: &'static str = "/api/v1/decide";

/// The request-phase redaction engine endpoint: the only one a request-phase
/// obligation may name.
pub const REQUEST_REDACTION_PATH: &'static str = "/api/v1/mcp/check-input";

/// The response-phase redaction engine endpoint.
pub const RESPONSE_REDACTION_PATH: &'static str = "/api/v1/mcp/check-output";

/// The connector tag the engine records for a gateway PEP.
pub const GATEWAY_CONNECTOR_TAG: &'static str = "gateway";

/// Whether an obligation asks for request-phase PII redaction.
pub open spec fn is_request_redaction(o: Obligation) -> bool {
    &&& o.type_@ == OBLIGATION_REDACT_PII@
    &&& o.fulfillment matches Some(f) && f.phase@ == PHASE_REQUEST@
}

/// Whether any obligation requires request-phase PII redaction.
pub fn has_request_redaction(obligations: &[Obligation]) -> (r: bool)
    ensures
        r == exists|i: int| 0 <= i < obligations@.len() && is_request_redaction(#[trigger] obligations@[i]),
{
    let mut i: usize = 0;
    while i < obligations.len()
        invariant
            i <= obligations@.len(),
            forall|k: int| 0 <= k < i ==> !is_request_redaction(#[trigger] obligations@[k]),
        decreases obligations@.len() - i,
    {
        let o = &obligations[i];
        if str_eq(o.type_.as_str(), OBLIGATION_REDACT_PII) {
            match &o.fulfillment {
                Some(f) => if str_eq(f.phase.as_str(), PHASE_REQUEST) {
                    return true;
                },
                None => {},
            }
        }
        i += 1;
    }
    false
}

/// Whether `p` occurs in `s` at `i`.
pub open spec fn occurs_at(s: Seq<char>, p: Seq<char>, i: int) -> bool {
    0 <= i && i + p.len() <= s.len() && s.subrange(i, i + p.len()) == p
}

/// The first position at or after `i` where `p` occurs in `s`.
pub open spec fn find_from(s: Seq<char>, p: Seq<char>, i: int) -> Option<int>
    decreases s.len() - i,
{
    if i < 0 || i >= s.len() {
        None
    } else if occurs_at(s, p, i) {
        Some(i)
    } else {
        find_from(s, p, i + 1)
    }
}

/// The path of `e` when it is an absolute URL with a path: what follows the
/// first `/` after `://`, without a query.
pub open spec fn url_path(e: Seq<char>) -> Option<Seq<char>> {
    match find_from(e, "://"@, 0) {
        None => None,
        Some(idx) => {
            let rest = e.subrange(idx + 3, e.len() as int);
            match find_from(rest, "/"@, 0) {
                None => None,
                Some(slash) => {
                    let path = rest.subrange(slash, rest.len() as int);
                    match find_from(path, "?"@, 0) {
                        Some(q) => Some(path.subrange(0, q)),
                        None => Some(path),
                    }
                },
            }
        },
    }
}

/// Whether an obligation's endpoint is the expected engine path: the path
/// itself (around white space), or an absolute URL whose path it is.
pub open spec fn endpoint_is(endpoint: Seq<char>, expected: Seq<char>) -> bool {
    let e = trim(endpoint);
    e == expected || (url_path(e) matches Some(p) && p == expected)
}

/// The first position at or after `from` where `p` occurs in `s`.
fn find_chars(s: &[char], p: &[char], from: usize) -> (r: Option<usize>)
    requires
        from <= s@.len(),
    ensures
        match r {
            Some(i) => find_from(s@, p@, from as int) == Some(i as int) && occurs_at(s@, p@, i as int),
            None => find_from(s@, p@, from as int) is None,
        },
{
    let mut i = from;
    while i < s.len()
        invariant
            from <= i <= s@.len(),
            find_from(s@, p@, from as int) == find_from(s@, p@, i as int),
        decreases s@.len() - i,
    {
        if p.len() <= s.len() - i {
            let w = slice_chars(s, i, i + p.len());
            if seq_eq(w.as_slice(), p) {
                assert(occurs_at(s@, p@, i as int));
                return Some(i);
            }
        }
        i += 1;
    }
    None
}

/// Whether `endpoint` is the expected engine path. A blank endpoint, a
/// different path, and an absolute URL without a path never match.
pub fn endpoint_path_matches(endpoint: &str, expected: &str) -> (r: bool)
    ensures
        r == endpoint_is(endpoint@, expected@),
{
    let cs = chars_of(endpoint);
    let e = trim_chars(cs.as_slice());
    let x = chars_of(expected);
    if seq_eq(e.as_slice(), x.as_slice()) {
        return true;
    }
    let sep = chars_of("://");
    let slash = chars_of("/");
    let question = chars_of("?");
    proof {
        reveal_strlit("://");
        reveal_strlit("/");
        reveal_strlit("?");
    }
    assert(sep@.len() == 3);
    match find_chars(e.as_slice(), sep.as_slice(), 0) {
        None => false,
        Some(idx) => {
            assert(occurs_at(e@, sep@, idx as int));
            let n = e.len();
            assert(idx + 3 <= n);
            let rest = slice_chars(e.as_slice(), idx + 3, n);
            match find_chars(rest.as_slice(), slash.as_slice(), 0) {
                None => false,
                Some(s) => {
                    let path = slice_chars(rest.as_slice(), s, rest.len());
                    match find_chars(path.as_slice(), question.as_slice(), 0) {
                        Some(q) => {
                            let head = slice_chars(path.as_slice(), 0, q);
                            seq_eq(head.as_slice(), x.as_slice())
                        },
                        None => seq_eq(path.as_slice(), x.as_slice()),
                    }
                },
            }
        },
    }
}

/// The message for a `redact_pii` obligation with no request-phase
/// fulfilment.
pub open spec fn no_request_phase_message() -> Seq<char> {
    "redact_pii obligation missing request-phase fulfillment"@
}

/// The message for an endpoint that advertises no text detector.
pub open spec fn no_text_detector_message() -> Seq<char> {
    "fulfillment endpoint does not advertise a text/plain detector"@
}

/// The message for an endpoint this client will not call.
pub open spec fn foreign_endpoint_message(endpoint: Seq<char>) -> Seq<char> {
    "fulfillment endpoint "@ + debug_quoted(endpoint) + " is not the request-redaction endpoint"@
}

/// Why a `redact_pii` obligation cannot be discharged through the engine,
/// or none when it can: no request-phase fulfilment, advertised content
/// types without `text/plain`, or an endpoint other than the
/// request-redaction one.
pub open spec fn unfulfillable(o: Obligation) -> Option<Seq<char>> {
    match o.fulfillment {
        Some(f) if f.phase@ == PHASE_REQUEST@ => if (f.content_types matches Some(cts) && cts@.len() > 0
            && !(exists|i: int| 0 <= i < cts@.len() && (#[trigger] cts@[i])@ == CONTENT_TYPE_TEXT@)) {
            Some(no_text_detector_message())
        } else if !endpoint_is(f.endpoint@, REQUEST_REDACTION_PATH@) {
            Some(foreign_endpoint_message(f.endpoint@))
        } else {
            None
        },
        _ => Some(no_request_phase_message()),
    }
}

/// A request-phase fulfilment naming the request-redaction endpoint
/// (`/api/v1/mcp/check-input`) can be discharged through the engine whenever
/// its advertised content types, if any, include `text/plain` at ANY
/// position; advertised types that never include it cannot be.
pub proof fn law_a_text_detector_anywhere_is_enough(o: Obligation)
    requires
        o.fulfillment matches Some(f) && f.phase@ == "request"@ && f.endpoint@ == "/api/v1/mcp/check-input"@,
    ensures
        (o.fulfillment->0.content_types matches Some(cts)
            && exists|i: int| 0 <= i < cts@.len() && (#[trigger] cts@[i])@ == "text/plain"@) ==> unfulfillable(o) is None,
        o.fulfillment->0.content_types is None ==> unfulfillable(o) is None,
        (o.fulfillment->0.content_types matches Some(cts) && cts@.len() == 0) ==> unfulfillable(o) is None,
        (o.fulfillment->0.content_types matches Some(cts) && cts@.len() > 0
            && forall|i: int| 0 <= i < cts@.len() ==> (#[trigger] cts@[i])@ != "text/plain"@)
            ==> unfulfillable(o) == Some("fulfillment endpoint does not advertise a text/plain detector"@),
{
    let e = o.fulfillment->0.endpoint@;
    reveal_strlit("/api/v1/mcp/check-input");
    reveal_strlit("request");
    reveal_strlit("text/plain");
    assert(!is_white_space(e[0]));
    assert(trim_start(e) == e);
    assert(!is_white_space(e.last()));
    assert(trim_end(e) == e);
    assert(endpoint_is(e, REQUEST_REDACTION_PATH@));
}

/// The walk over a verdict's obligations sends the first `redact_pii`
/// obligation to the engine, by its index, exactly when it can be
/// discharged; one that cannot be refuses the whole verdict.
pub proof fn law_the_first_dischargeable_redaction_goes_to_the_engine(obs: Seq<Obligation>, from: int, k: int, r: Result<Option<usize>, AxonFlowError>)
    requires
        0 <= from <= k < obs.len(),
        obs[k].type_@ == "redact_pii"@,
        forall|j: int| from <= j < k ==> (#[trigger] obs[j]).type_@ != "redact_pii"@,
        next_step(obs, from, r),
    ensures
        unfulfillable(obs[k]) is None ==> r == Ok::<Option<usize>, AxonFlowError>(Some(k as usize)),
        unfulfillable(obs[k]) is Some ==> r is Err && r->Err_0 is ObligationNotFulfillable,
{
    reveal_strlit("redact_pii");
    lemma_next_redaction_is(obs, from, k);
}

proof fn lemma_next_redaction_is(obs: Seq<Obligation>, from: int, k: int)
    requires
        0 <= from <= k < obs.len(),
        obs[k].type_@ == OBLIGATION_REDACT_PII@,
        forall|j: int| from <= j < k ==> (#[trigger] obs[j]).type_@ != OBLIGATION_REDACT_PII@,
    ensures
        next_redaction(obs, from) == Some(k),
    decreases k - from,
{
    if from < k {
        assert(obs[from].type_@ != OBLIGATION_REDACT_PII@);
        lemma_next_redaction_is(obs, from + 1, k);
    }
}

/// The first `redact_pii` obligation at or after `i`.
pub open spec fn next_redaction(obs: Seq<Obligation>, i: int) -> Option<int>
    decreases obs.len() - i,
{
    if i < 0 || i >= obs.len() {
        None
    } else if obs[i].type_@ == OBLIGATION_REDACT_PII@ {
        Some(i)
    } else {
        next_redaction(obs, i + 1)
    }
}

fn advertises_text(cts: &Vec<String>) -> (r: bool)
    ensures
        r == exists|i: int| 0 <= i < cts@.len() && (#[trigger] cts@[i])@ == CONTENT_TYPE_TEXT@,
{
    let mut i: usize = 0;
    while i < cts.len()
        invariant
            i <= cts@.len(),
            forall|k: int| 0 <= k < i ==> (#[trigger] cts@[k])@ != CONTENT_TYPE_TEXT@,
        decreases cts@.len() - i,
    {
        if str_eq(cts[i].as_str(), CONTENT_TYPE_TEXT) {
            return true;
        }
        i += 1;
    }
    false
}

/// Why a `redact_pii` obligation cannot be discharged, or none.
fn fulfillment_problem(o: &Obligation) -> (r: Option<String>)
    ensures
        match unfulfillable(*o) {
            Some(m) => r is Some && r->0@ == m,
            None => r is None,
        },
{
    match &o.fulfillment {
        Some(f) => {
            if !str_eq(f.phase.as_str(), PHASE_REQUEST) {
                return Some(owned("redact_pii obligation missing request-phase fulfillment"));
            }
            match &f.content_types {
                Some(cts) => if cts.len() > 0 && !advertises_text(cts) {
                    return Some(owned("fulfillment endpoint does not advertise a text/plain detector"));
                },
                None => {},
            }
            if !endpoint_path_matches(f.endpoint.as_str(), REQUEST_REDACTION_PATH) {
                let mut m = owned("fulfillment endpoint ");
                let q = debug_quote(f.endpoint.as_str());
                append(&mut m, q.as_str());
                append(&mut m, " is not the request-redaction endpoint");
                return Some(m);
            }
            None
        },
        None => Some(owned("redact_pii obligation missing request-phase fulfillment")),
    }
}

/// Where fulfilment of `obs` stands when it has reached `from`: the next
/// obligation the engine must discharge, none when all are done, or the
/// refusal for the first `redact_pii` obligation that cannot be discharged.
pub open spec fn next_step(obs: Seq<Obligation>, from: int, r: Result<Option<usize>, AxonFlowError>) -> bool {
    match next_redaction(obs, from) {
        None => r == Ok::<Option<usize>, AxonFlowError>(None),
        Some(i) => match unfulfillable(obs[i]) {
            Some(m) => r matches Err(AxonFlowError::ObligationNotFulfillable(msg)) && msg@ == m,
            None => r == Ok::<Option<usize>, AxonFlowError>(Some(i as usize)),
        },
    }
}

/// The next obligation the engine must discharge, scanning from `from`.
/// Obligations other than `redact_pii` pass through; a `redact_pii`
/// obligation that cannot be discharged FAILS CLOSED.
pub fn next_engine_call(obligations: &[Obligation], from: usize) -> (r: Result<Option<usize>, AxonFlowError>)
    requires
        from <= obligations@.len(),
    ensures
        next_step(obligations@, from as int, r),
{
    let mut i = from;
    while i < obligations.len()
        invariant
            from <= i <= obligations@.len(),
            next_redaction(obligations@, from as int) == next_redaction(obligations@, i as int),
        decreases obligations@.len() - i,
    {
        if str_eq(obligations[i].type_.as_str(), OBLIGATION_REDACT_PII) {
            return match fulfillment_problem(&obligations[i]) {
                Some(m) => Err(AxonFlowError::ObligationNotFulfillable(m)),
                None => Ok(Some(i)),
            };
        }
        i += 1;
    }
    Ok(None)
}

/// What the engine's answer comes to: a refusal when the redactor did not
/// run, the masked statement when it masked something, the statement as
/// sent otherwise.
pub open spec fn engine_result(resp: MCPCheckInputResponse, statement: Seq<char>, r: Result<String, AxonFlowError>) -> bool {
    if !resp.redaction_evaluated {
        r matches Err(AxonFlowError::ObligationNotFulfillable(m)) && m@ == "engine reported the redactor did not run (redaction disabled)"@
    } else if resp.redacted && (resp.redacted_statement matches Some(masked) && masked@.len() > 0) {
        r matches Ok(t) && t@ == resp.redacted_statement->0@
    } else {
        r matches Ok(t) && t@ == statement
    }
}

/// Reads the request-redaction engine's answer for `statement`. Never hands
/// back content the engine did not vouch for: a redactor that did not run
/// fails closed.
pub fn engine_outcome(response: &MCPCheckInputResponse, statement: &str) -> (r: Result<String, AxonFlowError>)
    ensures
        engine_result(*response, statement@, r),
{
    if !response.redaction_evaluated {
        return Err(AxonFlowError::ObligationNotFulfillable(owned("engine reported the redactor did not run (redaction disabled)")));
    }
    match &response.redacted_statement {
        Some(masked) => if response.redacted && !masked.as_str().is_empty() {
            Ok(masked.clone())
        } else {
            Ok(owned(statement))
        },
        None => Ok(owned(statement)),
    }
}

/// The refusal for an engine call that failed, with its rendering.
pub fn engine_call_failed(detail: &str) -> (e: AxonFlowError)
    ensures
        e matches AxonFlowError::ObligationNotFulfillable(m) && m@ == "request-redaction engine call failed: "@ + detail@,
{
    let mut m = owned("request-redaction engine call failed: ");
    append(&mut m, detail);
    AxonFlowError::ObligationNotFulfillable(m)
}

/// The refusal for an engine answer that did not decode.
pub fn engine_answer_unreadable(detail: &str) -> (e: AxonFlowError)
    ensures
        e matches AxonFlowError::ObligationNotFulfillable(m) && m@ == "decode request-redaction engine response: "@ + detail@,
{
    let mut m = owned("decode request-redaction engine response: ");
    append(&mut m, detail);
    AxonFlowError::ObligationNotFulfillable(m)
}

/// Where a fulfilment pass stands: the content so far, whether the engine
/// changed it, and the next obligation to look at.
#[derive(Debug, Clone, PartialEq, Eq)]
pub struct Fulfillment {
    pub content: String,
    pub did_redact: bool,
    pub next: usize,
}

impl Fulfillment {
    /// Nothing discharged yet: the statement as it came.
    pub fn start(statement: &str) -> (f: Self)
        ensures
            f.content@ == statement@,
            !f.did_redact,
            f.next == 0,
    {
        Fulfillment { content: owned(statement), did_redact: false, next: 0 }
    }

    /// Obligation `index` discharged: the content is what the ENGINE
    /// returned, and it counts as redacted once it differs from the
    /// original statement.
    pub fn advance(self, index: usize, engine_text: String, original: &str) -> (f: Self)
        requires
            index < usize::MAX,
        ensures
            f.content == engine_text,
            f.did_redact == (self.did_redact || engine_text@ != original@),
            f.next == index + 1,
    {
        let changed = !str_eq(engine_text.as_str(), original);
        Fulfillment { content: engine_text, did_redact: self.did_redact || changed, next: index + 1 }
    }
}

/// Whether a verdict needs its obligations discharged before forwarding:
/// only an allow does; anything else is blocked as it stands.
pub fn needs_fulfillment(verdict: &str) -> (r: bool)
    ensures
        r == (verdict@ == VERDICT_ALLOW@),
{
    str_eq(verdict, VERDICT_ALLOW)
}

/// A `redact_pii` obligation that cannot be discharged through the engine is
/// never passed over: fulfilment stops there with a refusal, so the caller
/// blocks instead of forwarding unredacted content.
pub proof fn law_unfulfillable_obligations_fail_closed(obs: Seq<Obligation>, from: int, r: Result<Option<usize>, AxonFlowError>)
    requires
        next_step(obs, from, r),
        next_redaction(obs, from) matches Some(i) && unfulfillable(obs[i]) is Some,
    ensures
        r is Err,
{
}

} // verus!
