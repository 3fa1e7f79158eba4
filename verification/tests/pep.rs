use axonflow_sdk_rust::error::AxonFlowError;
use axonflow_sdk_rust::pep::{
    endpoint_path_matches, engine_outcome, has_request_redaction, needs_fulfillment,
    next_engine_call, Fulfillment, CONTENT_TYPE_TEXT, OBLIGATION_REDACT_PII, PHASE_REQUEST,
    PHASE_RESPONSE, REQUEST_REDACTION_PATH, RESPONSE_REDACTION_PATH,
};
use axonflow_sdk_rust::types::pep::{MCPCheckInputResponse, Obligation, ObligationFulfillment};

fn redact_obligation() -> Obligation {
    Obligation {
        type_: OBLIGATION_REDACT_PII.into(),
        detail: None,
        fulfillment: Some(ObligationFulfillment {
            endpoint: REQUEST_REDACTION_PATH.into(),
            method: "POST".into(),
            phase: PHASE_REQUEST.into(),
            content_types: Some(vec![CONTENT_TYPE_TEXT.into()]),
        }),
    }
}

#[test]
fn endpoint_path_matches_exact_and_absolute() {
    assert!(endpoint_path_matches(REQUEST_REDACTION_PATH, REQUEST_REDACTION_PATH));
    assert!(endpoint_path_matches("  /api/v1/mcp/check-input  ", REQUEST_REDACTION_PATH));
    assert!(endpoint_path_matches("https://pdp.internal:8443/api/v1/mcp/check-input", REQUEST_REDACTION_PATH));
    assert!(endpoint_path_matches("https://pdp.internal/api/v1/mcp/check-input?x=1", REQUEST_REDACTION_PATH));
}

#[test]
fn endpoint_path_matches_rejects_foreign() {
    assert!(!endpoint_path_matches("", REQUEST_REDACTION_PATH));
    assert!(!endpoint_path_matches("/api/v1/mcp/check-output", REQUEST_REDACTION_PATH));
    assert!(!endpoint_path_matches("https://evil.example.com/steal", REQUEST_REDACTION_PATH));
    assert!(!endpoint_path_matches("https://pdp.internal", REQUEST_REDACTION_PATH));
}

#[test]
fn has_request_redaction_detects_request_phase() {
    assert!(has_request_redaction(&[redact_obligation()]));
}

#[test]
fn has_request_redaction_ignores_response_phase_and_no_fulfillment() {
    let resp_phase = Obligation {
        type_: OBLIGATION_REDACT_PII.into(),
        detail: None,
        fulfillment: Some(ObligationFulfillment {
            endpoint: RESPONSE_REDACTION_PATH.into(),
            method: "POST".into(),
            phase: PHASE_RESPONSE.into(),
            content_types: None,
        }),
    };
    let no_fulfillment = Obligation { type_: OBLIGATION_REDACT_PII.into(), detail: None, fulfillment: None };
    let other_type = Obligation {
        type_: "log_only".into(),
        detail: None,
        fulfillment: Some(ObligationFulfillment {
            endpoint: REQUEST_REDACTION_PATH.into(),
            method: "POST".into(),
            phase: PHASE_REQUEST.into(),
            content_types: None,
        }),
    };
    assert!(!has_request_redaction(&[resp_phase, no_fulfillment, other_type]));
    assert!(!has_request_redaction(&[]));
}

#[test]
fn has_request_redaction_finds_one_among_others() {
    let other = Obligation { type_: "log".into(), detail: None, fulfillment: None };
    assert!(has_request_redaction(&[other, redact_obligation()]));
}

#[test]
fn a_well_formed_obligation_goes_to_the_engine() {
    let other = Obligation { type_: "log".into(), detail: None, fulfillment: None };
    let obs = vec![other, redact_obligation()];
    assert_eq!(next_engine_call(&obs, 0).unwrap(), Some(1));
    assert_eq!(next_engine_call(&obs, 2).unwrap(), None);
}

fn refusal(obs: Vec<Obligation>) -> String {
    match next_engine_call(&obs, 0) {
        Err(AxonFlowError::ObligationNotFulfillable(m)) => m,
        other => panic!("expected a refusal, got {other:?}"),
    }
}

#[test]
fn an_undischargeable_obligation_fails_closed() {
    let mut missing = redact_obligation();
    missing.fulfillment = None;
    assert_eq!(refusal(vec![missing]), "redact_pii obligation missing request-phase fulfillment");

    let mut response_phase = redact_obligation();
    response_phase.fulfillment.as_mut().unwrap().phase = PHASE_RESPONSE.into();
    assert_eq!(refusal(vec![response_phase]), "redact_pii obligation missing request-phase fulfillment");

    let mut images = redact_obligation();
    images.fulfillment.as_mut().unwrap().content_types = Some(vec!["image/png".into()]);
    assert_eq!(refusal(vec![images]), "fulfillment endpoint does not advertise a text/plain detector");

    let mut empty_types = redact_obligation();
    empty_types.fulfillment.as_mut().unwrap().content_types = Some(vec![]);
    assert_eq!(next_engine_call(&[empty_types], 0).unwrap(), Some(0));

    let mut foreign = redact_obligation();
    foreign.fulfillment.as_mut().unwrap().endpoint = "https://evil.example.com/steal".into();
    assert_eq!(
        refusal(vec![foreign]),
        "fulfillment endpoint \"https://evil.example.com/steal\" is not the request-redaction endpoint"
    );
}

#[test]
fn the_engine_answer_decides_the_content() {
    let statement = "email a@b.com";
    let ran_and_masked = MCPCheckInputResponse {
        redaction_evaluated: true,
        redacted: true,
        redacted_statement: Some("email [EMAIL]".into()),
        ..Default::default()
    };
    assert_eq!(engine_outcome(&ran_and_masked, statement).unwrap(), "email [EMAIL]");
    let ran_clean = MCPCheckInputResponse { redaction_evaluated: true, ..Default::default() };
    assert_eq!(engine_outcome(&ran_clean, statement).unwrap(), statement);
    let blank = MCPCheckInputResponse {
        redaction_evaluated: true,
        redacted: true,
        redacted_statement: Some(String::new()),
        ..Default::default()
    };
    assert_eq!(engine_outcome(&blank, statement).unwrap(), statement);
    let not_run = MCPCheckInputResponse { redacted: true, redacted_statement: Some("x".into()), ..Default::default() };
    match engine_outcome(&not_run, statement) {
        Err(AxonFlowError::ObligationNotFulfillable(m)) => {
            assert_eq!(m, "engine reported the redactor did not run (redaction disabled)")
        },
        other => panic!("expected a refusal, got {other:?}"),
    }
}

#[test]
fn fulfilment_tracks_what_the_engine_changed() {
    let start = Fulfillment::start("a@b.com");
    assert!(!start.did_redact);
    let same = start.advance(0, "a@b.com".into(), "a@b.com");
    assert!(!same.did_redact);
    assert_eq!(same.next, 1);
    let masked = same.advance(3, "[EMAIL]".into(), "a@b.com");
    assert!(masked.did_redact);
    assert_eq!(masked.content, "[EMAIL]");
    assert_eq!(masked.next, 4);
    assert!(needs_fulfillment("allow"));
    assert!(!needs_fulfillment("deny"));
    assert!(!needs_fulfillment("needs_approval"));
}
