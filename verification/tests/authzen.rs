use axonflow_sdk_rust::authzen::attribute::{Attribute, AttributeMap, AttributeValue, JsonLeaf};
use axonflow_sdk_rust::authzen::types::{
    AuthZenAction, AuthZenApprovalClause, AuthZenApprovalRequirement, AuthZenBulk, AuthZenCategory,
    AuthZenEnvelope, AuthZenError, AuthZenErrorCode, AuthZenObligation, AuthZenObligationType,
    AuthZenOperationalState, AuthZenRequest, AuthZenResource, AuthZenResponse, AuthZenResponseContext,
    AuthZenSubject, AUTHZEN_PROFILE_V1,
};
use axonflow_sdk_rust::authzen::{
    failure_outcome, local_refusal, success_outcome, AuthZenDecision, AuthZenEvaluationError,
};
use axonflow_sdk_rust::error::AxonFlowError;

fn request() -> AuthZenRequest {
    AuthZenRequest::evaluating(
        AuthZenSubject::new("gateway", "llm-gateway-01"),
        AuthZenAction::new("llm.completion"),
        AuthZenResource::new("llm", "llm"),
    )
}

fn refusal_of(r: Result<(), AuthZenError>) -> AuthZenError {
    match r {
        Err(e) => e,
        Ok(()) => panic!("expected a refusal"),
    }
}

fn query_of(req: &AuthZenRequest) -> Option<&Attribute<AttributeValue>> {
    match req.context.get("args") {
        Some(Attribute::Known(v)) => v.as_nested().and_then(|bag| bag.get("query")),
        _ => None,
    }
}

#[test]
fn a_complete_request_is_sent_and_its_query_lands_at_args_query() {
    let req = request()
        .with_query(Attribute::known("what is our refund policy?".to_string()))
        .with_correlation("x-session-id", Attribute::known("sess-4711".to_string()));
    assert!(req.validate("").is_ok());
    match query_of(&req) {
        Some(Attribute::Known(v)) => assert_eq!(v.as_json(), Some(&JsonLeaf::Str("what is our refund policy?".into()))),
        other => panic!("{other:?}"),
    }
    let envelope = AuthZenEnvelope { evaluation: Some(req), evaluations: None };
    assert!(envelope.validate("").is_ok());
}

#[test]
fn a_later_write_never_overwrites_an_unresolved_attribute() {
    let req = request()
        .with_query(Attribute::unknown("the body did not decode"))
        .with_query(Attribute::known("recovered partial".to_string()));
    match query_of(&req) {
        Some(Attribute::Unknown(why)) => assert_eq!(why, "the body did not decode"),
        other => panic!("{other:?}"),
    }
    let e = refusal_of(req.validate(""));
    assert_eq!(e.code, AuthZenErrorCode::EvaluationUnavailable);
    assert_eq!(e.pointer.as_deref(), Some("/context/args/query"));
    assert!(e.message.contains("the body did not decode"));
    assert!(e.retryable(), "the code on its own is the server's retryable one");
    let local = local_refusal(e);
    assert!(!local.retryable(), "produced locally it is frozen inside the request");
    match local {
        AuthZenEvaluationError::Unresolved { pointer, reason } => {
            assert_eq!(pointer, "/context/args/query");
            assert!(reason.contains("could not be resolved"));
        },
        other => panic!("{other:?}"),
    }
}

#[test]
fn an_unresolved_parent_bag_survives_too() {
    let mut req = request();
    req.context.insert_unknown("args", "proxy stripped it");
    let req = req.with_query(Attribute::known("q".to_string()));
    assert!(req.context.get("args").map(|a| a.is_unknown()).unwrap_or(false));
    assert_eq!(refusal_of(req.validate("")).pointer.as_deref(), Some("/context/args"));
}

#[test]
fn an_absent_attribute_is_ordinary_resolved_data() {
    let mut req = request();
    req.context.insert_absent("department");
    assert!(req.validate("").is_ok());
}

#[test]
fn missing_members_are_refused_at_their_pointer() {
    let mut no_subject = request();
    no_subject.subject = None;
    let e = refusal_of(no_subject.validate(""));
    assert_eq!(e.code, AuthZenErrorCode::IncompleteEvaluation);
    assert_eq!(e.pointer.as_deref(), Some("/subject"));
    assert_eq!(e.message, "the required member /subject is missing or empty");
    let empty_id = AuthZenRequest::evaluating(AuthZenSubject::new("user", ""), AuthZenAction::new("read"), AuthZenResource::new("doc", "1"));
    assert_eq!(refusal_of(empty_id.validate("")).pointer.as_deref(), Some("/subject/id"));
    let no_name = AuthZenRequest::evaluating(AuthZenSubject::new("user", "u"), AuthZenAction::new(""), AuthZenResource::new("doc", "1"));
    assert_eq!(refusal_of(no_name.validate("")).pointer.as_deref(), Some("/action/name"));
    let mut props = request();
    props.resource.as_mut().unwrap().properties.insert_unknown("owner", "directory timeout");
    assert_eq!(refusal_of(props.validate("")).pointer.as_deref(), Some("/resource/properties/owner"));
}

#[test]
fn an_envelope_carries_exactly_one_form() {
    let neither = AuthZenEnvelope { evaluation: None, evaluations: None };
    let e = refusal_of(neither.validate(""));
    assert_eq!(e.pointer, None);
    assert_eq!(e.message, "an envelope carries exactly one of evaluation and evaluations");
    assert_eq!(e.to_string(), "axonflow: incomplete_evaluation: an envelope carries exactly one of evaluation and evaluations");
}

#[test]
fn bulk_entries_inherit_the_shared_base() {
    let entry = AuthZenRequest { subject: None, action: None, resource: Some(AuthZenResource::new("ticket", "T-1")), context: AttributeMap::new() };
    let bulk = AuthZenBulk::over(vec![entry])
        .with_subject(AuthZenSubject::new("user", "alice"))
        .with_action(AuthZenAction::new("move"));
    assert!(bulk.validate("").is_ok());
    let orphan = AuthZenRequest { subject: None, action: None, resource: Some(AuthZenResource::new("ticket", "T-2")), context: AttributeMap::new() };
    let bulk = AuthZenBulk::over(vec![request(), orphan]).with_subject(AuthZenSubject::new("user", "alice"));
    let e = refusal_of(bulk.validate(""));
    assert_eq!(e.pointer.as_deref(), Some("/evaluations/1/action"));
    let empty = AuthZenBulk::over(Vec::new());
    assert_eq!(refusal_of(empty.validate("")).pointer.as_deref(), Some("/evaluations"));
    let shared = AuthZenBulk::over(vec![request()]).with_correlation("x-trace", Attribute::unknown("no header"));
    assert_eq!(refusal_of(shared.validate("")).pointer.as_deref(), Some("/context/correlation/x-trace"));
    let _ = AuthZenBulk::over(vec![request()])
        .with_resource(AuthZenResource::new("a", "b"))
        .with_query(Attribute::absent());
}

fn context(state: AuthZenOperationalState) -> AuthZenResponseContext {
    AuthZenResponseContext {
        profile: AUTHZEN_PROFILE_V1.to_string(),
        state,
        category: AuthZenCategory::Allowed,
        reason: None,
        obligations: vec![
            AuthZenObligation { id: "o1".into(), obligation_type: AuthZenObligationType::FieldRedact, policy_id: "p1".into(), mandatory: true },
            AuthZenObligation { id: "o2".into(), obligation_type: AuthZenObligationType::Notification, policy_id: "p2".into(), mandatory: false },
        ],
        approval: None,
        decision_id: "dec-1".into(),
        schema_version: "1.0.0".into(),
    }
}

fn decision(response: AuthZenResponse) -> Result<AuthZenDecision, AuthZenEvaluationError> {
    AuthZenDecision::from_response(response)
}

#[test]
fn a_readable_allow_is_a_decision() {
    let d = decision(AuthZenResponse { decision: true, context: Some(context(AuthZenOperationalState::Allow)) }).expect("readable");
    assert!(d.allowed());
    assert_eq!(d.state(), &AuthZenOperationalState::Allow);
    assert_eq!(d.decision_id(), "dec-1");
    assert_eq!(d.schema_version(), "1.0.0");
    assert_eq!(d.obligations().len(), 2);
    let mandatory = d.mandatory_obligations();
    assert_eq!(mandatory.len(), 1);
    assert_eq!(mandatory[0].id, "o1");
    assert!(d.approval().is_none());
    assert!(d.reason().is_none());
    assert_eq!(d.category(), &AuthZenCategory::Allowed);
    let deny = decision(AuthZenResponse { decision: false, context: Some(context(AuthZenOperationalState::Deny)) }).expect("readable");
    assert!(!deny.allowed());
}

fn unusable(r: Result<AuthZenDecision, AuthZenEvaluationError>) -> String {
    match r {
        Err(AuthZenEvaluationError::UnusableResponse { detail }) => detail,
        other => panic!("expected an unusable response, got {other:?}"),
    }
}

#[test]
fn an_unreadable_body_never_becomes_a_decision() {
    let detail = unusable(decision(AuthZenResponse { decision: true, context: None }));
    assert!(detail.starts_with("the response carries no profile payload"), "{detail}");
    assert!(detail.contains("X-Axonflow-AuthZEN-Profile: axonflow.authzen.v1"), "{detail}");

    let disagree = unusable(decision(AuthZenResponse { decision: true, context: Some(context(AuthZenOperationalState::Challenge)) }));
    assert!(disagree.contains("the decision boolean is true but the operational state is CHALLENGE"), "{disagree}");
    let unknown_state = unusable(decision(AuthZenResponse {
        decision: true,
        context: Some(context(AuthZenOperationalState::Unknown("MAYBE".into()))),
    }));
    assert!(unknown_state.contains("operational state is MAYBE"));

    let mut orphan = context(AuthZenOperationalState::Allow);
    orphan.obligations[1].policy_id = String::new();
    let detail = unusable(decision(AuthZenResponse { decision: true, context: Some(orphan) }));
    assert_eq!(
        detail,
        "axonflow: incomplete_evaluation at /context/obligations/1/policy_id: the required member /context/obligations/1/policy_id is missing or empty"
    );

    let mut approval = context(AuthZenOperationalState::Challenge);
    approval.approval = Some(AuthZenApprovalRequirement { clauses: vec![AuthZenApprovalClause { approvers: vec![], quorum: 1 }] });
    let detail = unusable(decision(AuthZenResponse { decision: false, context: Some(approval) }));
    assert!(detail.contains("/context/approval/clauses/0/approvers"));

    let mut later = context(AuthZenOperationalState::Allow);
    later.profile = "axonflow.authzen.v2".into();
    match decision(AuthZenResponse { decision: true, context: Some(later) }) {
        Err(e @ AuthZenEvaluationError::UnreadableProfile { .. }) => {
            assert!(!e.retryable());
            if let AuthZenEvaluationError::UnreadableProfile { received, understood } = e {
                assert_eq!(received, "axonflow.authzen.v2");
                assert_eq!(understood, AUTHZEN_PROFILE_V1);
            }
        },
        other => panic!("{other:?}"),
    }
}

#[test]
fn a_body_that_does_not_decode_is_unusable() {
    let detail = unusable(success_outcome(Err("expected value".into()), b"{oops"));
    assert_eq!(detail, "the decision could not be decoded: expected value; body={oops");
}

#[test]
fn failure_statuses_are_classified() {
    let refusal = |code: AuthZenErrorCode| AuthZenError::new(code, "no such action".into()).at("/action/name");
    match failure_outcome(422, Some(refusal(AuthZenErrorCode::Unknown("brand_new".into()))), b"{}") {
        AuthZenEvaluationError::Refused(e) => assert_eq!(e.pointer.as_deref(), Some("/action/name")),
        other => panic!("{other:?}"),
    }
    match failure_outcome(503, Some(refusal(AuthZenErrorCode::EvaluationUnavailable)), b"{}") {
        e @ AuthZenEvaluationError::Refused(_) => assert!(e.retryable()),
        other => panic!("{other:?}"),
    }
    match failure_outcome(503, Some(refusal(AuthZenErrorCode::Unknown("sidecar".into()))), b"upstream down") {
        e @ AuthZenEvaluationError::Transport(AxonFlowError::ApiError { status: 503, .. }) => {
            assert!(e.retryable());
            if let AuthZenEvaluationError::Transport(AxonFlowError::ApiError { message, .. }) = e {
                assert_eq!(message, "upstream down");
            }
        },
        other => panic!("{other:?}"),
    }
    match failure_outcome(400, Some(AuthZenError::new(AuthZenErrorCode::IncompleteEvaluation, String::new())), b"x") {
        AuthZenEvaluationError::Transport(_) => {},
        other => panic!("a refusal with no message is not usable: {other:?}"),
    }
    match failure_outcome(404, None, b"not \xff json") {
        AuthZenEvaluationError::Transport(AxonFlowError::ApiError { status: 404, message }) => {
            assert_eq!(message, "not \u{fffd} json", "an invalid byte is replaced, not dropped");
        },
        other => panic!("{other:?}"),
    }
}

#[test]
fn only_one_refusal_code_is_retryable() {
    assert!(AuthZenErrorCode::EvaluationUnavailable.retryable());
    for code in [
        AuthZenErrorCode::IncompleteEvaluation,
        AuthZenErrorCode::UnsupportedSubject,
        AuthZenErrorCode::UnsupportedAction,
        AuthZenErrorCode::UnsupportedResource,
        AuthZenErrorCode::UnsupportedContext,
        AuthZenErrorCode::Unknown("later".into()),
    ] {
        assert!(!code.retryable(), "{code:?}");
    }
    let server = AuthZenError::new(AuthZenErrorCode::UnsupportedSubject, "m".into()).supporting(vec!["user".into()]);
    assert_eq!(server.supported, vec!["user".to_string()]);
    let local = local_refusal(server);
    assert!(local.as_refusal().is_some());
    assert!(!local.retryable());
    assert_eq!(AuthZenError::new(AuthZenErrorCode::IncompleteEvaluation, "m".into()).at("").pointer, None);
}

#[test]
fn attributes_have_three_states() {
    let known: Attribute<i64> = Attribute::known(3);
    assert_eq!(known.fold(|v| *v, || -1, |_| -2), 3);
    assert_eq!(Attribute::<i64>::absent().fold(|v| *v, || -1, |_| -2), -1);
    assert_eq!(Attribute::<i64>::unknown("x").fold(|v| *v, || -1, |_| -2), -2);
    assert!(known.is_known());
    assert!(Attribute::<i64>::absent().is_absent());
    assert_eq!(known.as_known(), Some(&3));
    assert_eq!(Attribute::known(2).map(|v: i64| v * 10), Attribute::known(20));
    let mut bag = AttributeMap::new();
    assert!(bag.is_empty());
    bag.insert_known("b", AttributeValue::from_bool(true));
    bag.insert_known("a", AttributeValue::from_i64(1));
    assert_eq!(bag.len(), 2);
    let keys: Vec<&str> = bag.iter().iter().map(|(k, _)| k.as_str()).collect();
    assert_eq!(keys, vec!["a", "b"]);
    assert!(!bag.record("a", Attribute::absent()) || bag.get("a") == Some(&Attribute::Absent));
    bag.insert_unknown("c", "timeout");
    assert!(!bag.record("c", Attribute::absent()));
    assert_eq!(bag.validate("/x").unwrap_err().pointer.as_deref(), Some("/x/c"));
}

#[test]
fn mapping_applies_to_known_values_only() {
    let k: Attribute<i64> = Attribute::known(20);
    assert_eq!(k.clone().map(|v| v), k);
    assert_eq!(k.clone().map(|v| v + 1).map(|v| v * 2), k.clone().map(|v| (v + 1) * 2));
    assert_eq!(k.map(|v| v + 1), Attribute::Known(21));
    let u: Attribute<i64> = Attribute::unknown("directory timed out");
    assert_eq!(u.map(|v| v + 1), Attribute::Unknown("directory timed out".to_string()));
    let a: Attribute<i64> = Attribute::absent();
    assert_eq!(a.map(|v| v + 1), Attribute::Absent);
}

#[test]
fn a_bulk_query_is_the_same_write_as_a_request_query() {
    let single = request().with_query(Attribute::known("q".to_string())).with_query(Attribute::known("r".to_string()));
    let bulk = AuthZenBulk::over(Vec::new())
        .with_query(Attribute::known("q".to_string()))
        .with_query(Attribute::known("r".to_string()));
    assert_eq!(single.context, bulk.context);
    let single = request().with_query(Attribute::unknown("unread")).with_query(Attribute::known("late".to_string()));
    let bulk = AuthZenBulk::over(Vec::new())
        .with_query(Attribute::unknown("unread"))
        .with_query(Attribute::known("late".to_string()));
    assert_eq!(single.context, bulk.context);
}

#[test]
fn a_value_is_read_through_its_one_case() {
    let leaf = AttributeValue::from_i64(7);
    assert_eq!(leaf.fold(|l| format!("leaf {l:?}"), |m| format!("bag of {}", m.len())), "leaf Int(7)");
    let mut bag = AttributeMap::new();
    bag.insert_known("a", AttributeValue::from_bool(true));
    let nested = AttributeValue::from_map(bag);
    assert_eq!(nested.fold(|l| format!("leaf {l:?}"), |m| format!("bag of {}", m.len())), "bag of 1");
}

#[test]
fn the_wire_carries_known_members_in_key_order_and_omits_absent_ones() {
    let mut bag = AttributeMap::new();
    bag.insert_known("zone", AttributeValue::from_str("eu"));
    bag.insert_absent("department");
    bag.insert_known("clearance", AttributeValue::from_i64(3));
    let members = bag.wire_members().expect("nothing unresolved");
    let keys: Vec<&str> = members.iter().map(|(k, _)| *k).collect();
    assert_eq!(keys, vec!["clearance", "zone"]);
    assert_eq!(members[1].1, &AttributeValue::from_str("eu"));
}

#[test]
fn an_unresolved_member_has_no_wire_form() {
    let mut bag = AttributeMap::new();
    bag.insert_known("a", AttributeValue::from_bool(true));
    bag.insert_unknown("b", "directory timed out");
    bag.insert_unknown("c", "later");
    assert_eq!(
        bag.wire_members().unwrap_err(),
        "the attribute \"b\" could not be resolved (directory timed out) and has no wire representation; \
         validate the envelope before encoding it"
    );
}
