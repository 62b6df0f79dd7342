use keetanetwork_anchor_client::blocker::{
    AccountStatus, AssetMovementBlocker, ADDITIONAL_KYC_NEEDED,
};
use keetanetwork_anchor_client::coded::{
    coded, coded_blocker, encode, encode_absent, encode_account_status, encode_ack, encoded,
    invalid, invalid_input, one_answer, parse, unreadable, CodedError,
};
use keetanetwork_anchor_client::error::AnchorClientError;
use keetanetwork_anchor_client::json::Json;

fn broken() -> serde_json::Error {
    serde_json::from_slice::<serde_json::Value>(b"[1,").unwrap_err()
}

fn error(code: &str, message: &str) -> CodedError {
    CodedError { code: code.to_string(), message: message.to_string() }
}

#[test]
fn an_argument_error_is_an_invalid_input() {
    assert_eq!(invalid("why"), error("INVALID_INPUT", "why"));
    assert_eq!(unreadable(), error("INVALID_INPUT", "unreadable argument buffer"));
    assert_eq!(invalid_input(broken()), error("INVALID_INPUT", &broken().to_string()));
    assert_eq!(CodedError::new("A", "b"), error("A", "b"));
}

#[test]
fn a_parsed_argument_is_handed_through() {
    assert_eq!(parse(Ok(3u8)), Ok(3u8));
    assert_eq!(parse::<u8>(Err(broken())), Err(error("INVALID_INPUT", &broken().to_string())));
}

#[test]
fn an_unwritten_payload_is_an_encode_error() {
    assert_eq!(encoded(Ok(vec![1, 2])), Ok(vec![1, 2]));
    assert_eq!(encoded(Err(broken())), Err(error("ENCODE", &broken().to_string())));
}

#[test]
fn void_and_absent_payloads_have_fixed_bytes() {
    assert_eq!(encode_ack(), Ok(b"{}".to_vec()));
    assert_eq!(encode_absent(), Ok(b"null".to_vec()));
    assert_eq!(one_answer(None), Ok(b"null".to_vec()));
    assert_eq!(one_answer(Some(Ok(b"{}".to_vec()))), Ok(b"{}".to_vec()));
    assert_eq!(one_answer(Some(Err(broken()))), Err(error("ENCODE", &broken().to_string())));
}

#[test]
fn documents_are_written_in_the_order_of_names() {
    let document = Json::from_slice(br#"{"b":[1,2.5,-3],"a":{"x":null,"y":true},"c":"\n"}"#).unwrap();
    assert_eq!(
        encode(document).unwrap(),
        br#"{"a":{"x":null,"y":true},"b":[1,2.5,-3],"c":"\n"}"#.to_vec()
    );
}

#[test]
fn an_account_status_is_written_as_its_document() {
    assert_eq!(
        encode_account_status(&AccountStatus::Ready).unwrap(),
        br#"{"actionRequired":false}"#.to_vec()
    );
}

#[test]
fn a_client_failure_keeps_its_code_and_message() {
    assert_eq!(
        coded(AnchorClientError::Service { status: 500 }),
        error("SERVICE", "anchor request failed (status 500)")
    );
}

#[test]
fn a_known_blocker_is_reported_under_its_transport_code() {
    let blocker = AssetMovementBlocker::AdditionalKycNeeded { to_complete_flow: None };
    assert_eq!(
        coded(AnchorClientError::Blocker { blocker }),
        error(
            ADDITIONAL_KYC_NEEDED,
            r#"{"toCompleteFlow":null,"type":"additionalKycNeeded"}"#
        )
    );
}

#[test]
fn an_unknown_blocker_is_reported_under_the_code_it_has() {
    let blocker = AssetMovementBlocker::Other {
        name: "N".to_string(),
        code: Some("MINE".to_string()),
        message: "m".to_string(),
    };
    assert_eq!(
        coded(AnchorClientError::Blocker { blocker }),
        error("MINE", r#"{"code":"MINE","message":"m","name":"N","type":"other"}"#)
    );
    let nameless = AssetMovementBlocker::Other {
        name: String::new(),
        code: None,
        message: String::new(),
    };
    assert_eq!(
        coded(AnchorClientError::Blocker { blocker: nameless }),
        error("SERVICE", r#"{"code":null,"message":"","name":"","type":"other"}"#)
    );
}

#[test]
fn a_blocker_that_cannot_be_written_has_no_message() {
    let blocker = AssetMovementBlocker::UserActionNeeded { actions_needed: Vec::new() };
    let code = blocker.static_transport_code().unwrap();
    assert_eq!(coded_blocker(&blocker, Err(broken())), error(code, ""));
}
