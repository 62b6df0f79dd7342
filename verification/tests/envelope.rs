use keetanetwork_anchor_client::blocker::{AssetMovementBlocker, KYC_SHARE_NEEDED};
use keetanetwork_anchor_client::envelope::{
    classify, classify_document, failure, header_delay_ms, pending_delay, read_envelope,
    retry_delay, AnchorOutcome, Envelope, DEFAULT_RETRY_MS, NOT_FOUND,
};
use keetanetwork_anchor_client::error::AnchorClientError;
use keetanetwork_anchor_client::json::Json;
use keetanetwork_anchor_client::transport::{HttpResponse, RetryAfter};

/// The failure of a body that has no envelope to scan for.
fn unscanned() -> Result<Envelope, serde_json::Error> {
    Err(serde_json::from_slice::<serde_json::Value>(b"").unwrap_err())
}

fn outcome_of(response: &HttpResponse) -> Result<AnchorOutcome<Json>, AnchorClientError> {
    classify_document(response, unscanned())
}

#[test]
fn a_retry_after_header_becomes_a_retry_outcome() {
    let response =
        HttpResponse::new(503, b"{}".to_vec()).with_retry_after(Some(RetryAfter::Seconds(2)));
    let outcome = outcome_of(&response);
    assert!(matches!(outcome, Ok(AnchorOutcome::Retry { after_ms: 2_000 })));
}

#[test]
fn a_body_hint_outranks_the_header() {
    let response = HttpResponse::new(503, br#"{"retryAfter":750}"#.to_vec())
        .with_retry_after(Some(RetryAfter::Seconds(2)));
    let outcome = outcome_of(&response);
    assert!(matches!(outcome, Ok(AnchorOutcome::Retry { after_ms: 750 })));
}

#[test]
fn a_not_found_without_a_hint_uses_the_default_delay() {
    let response = HttpResponse::new(NOT_FOUND, b"{}".to_vec());
    let outcome = outcome_of(&response);
    assert!(matches!(outcome, Ok(AnchorOutcome::Retry { after_ms: DEFAULT_RETRY_MS })));
}

#[test]
fn an_accepted_status_is_pending_even_with_an_opaque_body() {
    let response = HttpResponse::new(202, b"pending".to_vec());
    let outcome = outcome_of(&response);
    assert!(matches!(outcome, Ok(AnchorOutcome::Retry { after_ms: DEFAULT_RETRY_MS })));
}

#[test]
fn a_recognized_asset_movement_blocker_survives_a_forbidden_status() {
    let body = format!(
        r#"{{"ok":false,"name":"KeetaAssetMovementAnchorKYCShareNeededError","code":"{}","error":"share needed","data":{{"shareWithPrincipals":["keeta_p"],"acceptedIssuers":[]}}}}"#,
        KYC_SHARE_NEEDED
    );
    let response = HttpResponse::new(403, body.into_bytes());
    let outcome = outcome_of(&response);
    assert!(matches!(
        outcome,
        Err(AnchorClientError::Blocker { blocker }) if matches!(blocker, AssetMovementBlocker::KycShareNeeded { .. })
    ));
}

#[test]
fn a_date_header_falls_back_to_the_body_or_default() {
    let response = HttpResponse::new(200, br#"{"ok":true}"#.to_vec())
        .with_retry_after(Some(RetryAfter::HttpDate("Wed, 21 Oct 2025 07:28:00 GMT".into())));
    let outcome = outcome_of(&response);
    assert!(matches!(outcome, Ok(AnchorOutcome::Ready(_))));
}

#[test]
fn the_default_delay_is_half_a_second() {
    assert_eq!(DEFAULT_RETRY_MS, 500);
}

#[test]
fn a_ready_outcome_gives_its_value_and_a_retry_none() {
    assert_eq!(AnchorOutcome::Ready(7).ready(), Some(7));
    assert_eq!(AnchorOutcome::<u8>::Retry { after_ms: 1 }.ready(), None);
}

#[test]
fn a_ready_document_is_the_body() {
    let response = HttpResponse::new(200, br#"{"ok":true,"id":"x"}"#.to_vec());
    let document = outcome_of(&response).unwrap().ready().unwrap();
    assert_eq!(document.get("id").and_then(Json::as_str), Some("x"));
    assert_eq!(document.get("ok"), Some(&Json::Bool(true)));
}

#[test]
fn a_typed_value_is_handed_through() {
    let response = HttpResponse::new(201, b"5".to_vec());
    let outcome = classify(&response, unscanned(), Ok(5u8));
    assert_eq!(outcome.unwrap(), AnchorOutcome::Ready(5u8));
}

#[test]
fn a_refusal_under_a_success_status_is_a_failure() {
    let response = HttpResponse::new(200, br#"{"ok":false,"error":"no"}"#.to_vec());
    assert!(matches!(outcome_of(&response), Err(AnchorClientError::Service { status: 200 })));
}

#[test]
fn an_unknown_error_reports_the_status() {
    let response = HttpResponse::new(500, br#"{"code":"SOMETHING_ELSE"}"#.to_vec());
    assert!(matches!(outcome_of(&response), Err(AnchorClientError::Service { status: 500 })));
    let opaque = HttpResponse::new(502, b"<html>".to_vec());
    assert!(matches!(outcome_of(&opaque), Err(AnchorClientError::Service { status: 502 })));
}

#[test]
fn an_undecodable_success_body_tells_why() {
    let response = HttpResponse::new(200, b"nope".to_vec());
    let reason = serde_json::from_slice::<serde_json::Value>(b"nope").unwrap_err().to_string();
    match outcome_of(&response) {
        Err(AnchorClientError::Body { reason: told }) => assert_eq!(told, reason),
        other => panic!("{:?}", other),
    }
}

#[test]
fn the_ends_of_the_success_range_count_as_settled() {
    assert!(!HttpResponse::new(199, Vec::new()).is_success());
    assert!(HttpResponse::new(200, Vec::new()).is_success());
    assert!(HttpResponse::new(299, Vec::new()).is_success());
    assert!(!HttpResponse::new(300, Vec::new()).is_success());
}

#[test]
fn a_settled_response_with_an_opaque_body_is_not_pending() {
    let response = HttpResponse::new(200, b"opaque".to_vec());
    assert_eq!(pending_delay(&response, unscanned()), None);
}

#[test]
fn a_pending_delay_agrees_with_the_retry_outcome() {
    let bodies: [&[u8]; 4] = [b"{}", br#"{"retryAfter":9}"#, br#"{"ok":false}"#, b"?"];
    for status in [200u16, 202, 404, 500] {
        for body in bodies {
            let response = HttpResponse::new(status, body.to_vec());
            let delay = pending_delay(&response, unscanned());
            match outcome_of(&response) {
                Ok(AnchorOutcome::Retry { after_ms }) => assert_eq!(delay, Some(after_ms)),
                _ => assert_eq!(delay, None),
            }
        }
    }
}

#[test]
fn a_header_delay_that_does_not_fit_is_passed_over() {
    assert_eq!(header_delay_ms(&RetryAfter::Seconds(4_294_967)), Some(4_294_967_000));
    assert_eq!(header_delay_ms(&RetryAfter::Seconds(4_294_968)), None);
    assert_eq!(header_delay_ms(&RetryAfter::Seconds(u64::MAX)), None);
    assert_eq!(header_delay_ms(&RetryAfter::HttpDate("soon".into())), None);
    let response =
        HttpResponse::new(404, Vec::new()).with_retry_after(Some(RetryAfter::Seconds(u64::MAX)));
    assert_eq!(retry_delay(&response, &Envelope::default()), Some(500));
}

#[test]
fn a_failure_reads_the_blocker_only_from_a_known_code() {
    let known = Json::from_slice(
        br#"{"code":"KEETA_ANCHOR_ASSET_MOVEMENT_USER_ACTION_NEEDED","data":{"actionsNeeded":[1]}}"#,
    );
    match failure(400, known) {
        AnchorClientError::Blocker { blocker } => {
            let one = Json::from_slice(b"1").unwrap();
            assert_eq!(
                blocker,
                AssetMovementBlocker::UserActionNeeded { actions_needed: vec![one] }
            );
        }
        other => panic!("{:?}", other),
    }
    let unread = Json::from_slice(b"{");
    assert!(matches!(failure(418, unread), AnchorClientError::Service { status: 418 }));
}

fn envelope_of(body: &str) -> Envelope {
    read_envelope(&HttpResponse::new(200, body.as_bytes().to_vec()), unscanned())
}

#[test]
fn each_field_of_an_envelope_counts_for_itself() {
    let envelope = |ok, retry_after| Envelope { ok, retry_after };
    assert_eq!(envelope_of(r#"{"ok":true,"retryAfter":7}"#), envelope(Some(true), Some(7)));
    assert_eq!(envelope_of(r#"{"ok":"no","retryAfter":7}"#), envelope(None, Some(7)));
    for hint in ["4294967296", "-1", "0.5", "7.0", "1e3", r#""7""#, "null", "[7]"] {
        let body = format!(r#"{{"ok":false,"retryAfter":{}}}"#, hint);
        assert_eq!(envelope_of(&body), envelope(Some(false), None));
    }
    assert_eq!(
        envelope_of(r#"{"ok":null,"retryAfter":4294967295}"#),
        envelope(None, Some(4_294_967_295))
    );
    for body in ["", "{", "[]", "true", r#"{"OK":true}"#] {
        assert_eq!(envelope_of(body), Envelope::default());
    }
}

#[test]
fn a_refusal_with_an_oversized_hint_is_a_failure() {
    let response =
        HttpResponse::new(200, br#"{"ok":false,"retryAfter":4294967296}"#.to_vec());
    assert_eq!(pending_delay(&response, unscanned()), None);
    assert!(matches!(outcome_of(&response), Err(AnchorClientError::Service { status: 200 })));
    let outcome = classify(&response, unscanned(), Ok(1u8));
    assert!(matches!(outcome, Err(AnchorClientError::Service { status: 200 })));
}

#[test]
fn a_hint_outranks_a_refusal() {
    let response = HttpResponse::new(200, br#"{"ok":false,"retryAfter":3}"#.to_vec());
    assert!(matches!(outcome_of(&response), Ok(AnchorOutcome::Retry { after_ms: 3 })));
}

#[test]
fn a_scanned_envelope_counts_where_the_body_is_no_document() {
    let refused = Envelope { ok: Some(false), retry_after: None };
    let response = HttpResponse::new(200, br#"{"ok":false,"x":1e999}"#.to_vec());
    assert!(Json::from_slice(&response.body).is_err());
    assert_eq!(read_envelope(&response, Ok(refused)), refused);
    let outcome = classify(&response, Ok(refused), Ok(1u8));
    assert!(matches!(outcome, Err(AnchorClientError::Service { status: 200 })));
    let outcome = classify_document(&response, Ok(refused));
    assert!(matches!(outcome, Err(AnchorClientError::Service { status: 200 })));
    let hinted = Envelope { ok: None, retry_after: Some(5) };
    assert_eq!(pending_delay(&response, Ok(hinted)), Some(5));

    let readable = HttpResponse::new(200, br#"{"ok":true}"#.to_vec());
    let own = Envelope { ok: Some(true), retry_after: None };
    assert_eq!(read_envelope(&readable, Ok(refused)), own);
}
