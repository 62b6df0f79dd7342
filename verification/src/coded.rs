use vstd::prelude::*;

use crate::blocker::{
    account_status_json, status_document, AccountStatus, AssetMovementBlocker, BlockerView,
};
use crate::error::{client_code, client_message, printed, AnchorClientError};
use crate::json::{no_members, Json, JsonView};
use crate::value::{empty_object_bytes, null_bytes, written_bytes};

verus! {

/// A failure reduced to a stable code and a human-readable message.
#[derive(Debug, PartialEq, Eq)]
pub struct CodedError {
    /// Stable, machine-readable code consumers branch on.
    pub code: String,
    /// Human-readable description.
    pub message: String,
}

impl CodedError {
    /// Whether this error has the given code and message.
    pub open spec fn says(self, code: Seq<char>, message: Seq<char>) -> bool {
        self.code@ == code && self.message@ == message
    }

    /// A coded error from a code and message.
    pub fn new(code: &str, message: &str) -> (error: Self)
        ensures
            error.says(code@, message@),
    {
        Self { code: code.to_owned(), message: message.to_owned() }
    }
}

/// Whether `error` reports that an argument is not the JSON it must be, for the reason `reason`.
pub open spec fn rejects_json(error: CodedError, reason: serde_json::Error) -> bool {
    error.code@ == "INVALID_INPUT"@ && printed(&reason, error.message)
}

/// The coded error for an unparseable JSON argument.
pub fn invalid_input(error: serde_json::Error) -> (coded: CodedError)
    ensures
        rejects_json(coded, error),
{
    CodedError { code: "INVALID_INPUT".to_owned(), message: error.to_string() }
}

/// The coded error for a malformed argument value.
pub fn invalid(reason: &str) -> (coded: CodedError)
    ensures
        coded.says("INVALID_INPUT"@, reason@),
{
    CodedError::new("INVALID_INPUT", reason)
}

/// The coded error for an unreadable guest buffer.
pub fn unreadable() -> (coded: CodedError)
    ensures
        coded.says("INVALID_INPUT"@, "unreadable argument buffer"@),
{
    CodedError::new("INVALID_INPUT", "unreadable argument buffer")
}

/// An argument that was read from its JSON, or the coded error for one that could not be.
pub fn parse<T>(read: Result<T, serde_json::Error>) -> (parsed: Result<T, CodedError>)
    ensures
        match read {
            Ok(argument) => parsed == Ok::<T, CodedError>(argument),
            Err(reason) => parsed matches Err(error) && rejects_json(error, reason),
        },
{
    match read {
        Ok(argument) => Ok(argument),
        Err(error) => Err(invalid_input(error)),
    }
}

/// Whether `bytes` is the answer for a payload that was written as `written`.
pub open spec fn encodes_written(
    written: Result<Vec<u8>, serde_json::Error>,
    bytes: Result<Vec<u8>, CodedError>,
) -> bool {
    match written {
        Ok(payload) => bytes == Ok::<Vec<u8>, CodedError>(payload),
        Err(reason) => bytes matches Err(error) && error.code@ == "ENCODE"@ && printed(
            &reason,
            error.message,
        ),
    }
}

/// The bytes that a payload was written to, or the coded error for one that could not be written.
pub fn encoded(written: Result<Vec<u8>, serde_json::Error>) -> (bytes: Result<Vec<u8>, CodedError>)
    ensures
        encodes_written(written, bytes),
{
    match written {
        Ok(payload) => Ok(payload),
        Err(error) => Err(CodedError { code: "ENCODE".to_owned(), message: error.to_string() }),
    }
}

/// Whether `bytes` is what encoding `document` gives.
pub open spec fn encodes(document: JsonView, bytes: Result<Vec<u8>, CodedError>) -> bool {
    bytes matches Ok(bytes) && bytes@ == written_bytes(document)
}

/// Writes a document to JSON result bytes.
pub fn encode(document: Json) -> (bytes: Result<Vec<u8>, CodedError>)
    ensures
        encodes(document@, bytes),
        document@ is Null ==> written_bytes(document@) == null_bytes(),
        document@ == JsonView::Object(Map::empty()) ==> written_bytes(document@)
            == empty_object_bytes(),
{
    encoded(document.to_vec())
}

/// Encodes an account status as its JSON output.
pub fn encode_account_status(status: &AccountStatus) -> (bytes: Result<Vec<u8>, CodedError>)
    ensures
        encodes(status_document(*status), bytes),
{
    encode(account_status_json(status))
}

/// The JSON `{}` that acknowledges a void operation.
pub fn encode_ack() -> (bytes: Result<Vec<u8>, CodedError>)
    ensures
        bytes matches Ok(bytes) && bytes@ == empty_object_bytes(),
{
    encode(Json::Object(no_members()))
}

/// The JSON `null` that stands for an absent provider.
pub fn encode_absent() -> (bytes: Result<Vec<u8>, CodedError>)
    ensures
        bytes matches Ok(bytes) && bytes@ == null_bytes(),
{
    encode(Json::Null)
}

/// The answer to a request for one provider: its document, where `written` is what writing it gave, or
/// `null` where there is none.
pub fn one_answer(written: Option<Result<Vec<u8>, serde_json::Error>>) -> (bytes: Result<
    Vec<u8>,
    CodedError,
>)
    ensures
        match written {
            Some(written) => encodes_written(written, bytes),
            None => bytes matches Ok(bytes) && bytes@ == null_bytes(),
        },
{
    match written {
        Some(written) => encoded(written),
        None => encode_absent(),
    }
}

/// The code under which a blocker is reported: its transport code, else the code it was kept with,
/// else that of a service failure.
pub open spec fn blocker_code(blocker: BlockerView) -> Seq<char> {
    match blocker.transport_code() {
        Some(code) => code,
        None => match blocker {
            BlockerView::Other { code: Some(code), .. } => code,
            _ => "SERVICE"@,
        },
    }
}

/// The coded error for a blocker, where `written` is its JSON as text; without a message where it
/// could not be written.
pub fn coded_blocker(
    blocker: &AssetMovementBlocker,
    written: Result<String, serde_json::Error>,
) -> (coded: CodedError)
    ensures
        coded.says(
            blocker_code(blocker@),
            match written {
                Ok(text) => text@,
                Err(_) => Seq::empty(),
            },
        ),
{
    let code = match blocker.static_transport_code() {
        Some(code) => code.to_owned(),
        None => match blocker {
            AssetMovementBlocker::Other { code: Some(code), .. } => code.clone(),
            _ => "SERVICE".to_owned(),
        },
    };
    let message = match written {
        Ok(text) => text,
        Err(_) => String::new(),
    };
    CodedError { code, message }
}

/// Whether `coded` reports the anchor client failure `error`: a blocker with its JSON as the message,
/// any other failure with its own message.
pub open spec fn codes(coded: CodedError, error: AnchorClientError) -> bool {
    match error {
        AnchorClientError::Blocker { blocker } => coded.code@ == blocker_code(blocker@)
            && vstd::utf8::encode_utf8(coded.message@) == written_bytes(blocker@.to_json()),
        other => coded.says(client_code(other), client_message(other)),
    }
}

/// The coded error for an anchor client failure.
pub fn coded(error: AnchorClientError) -> (coded: CodedError)
    ensures
        codes(coded, error),
{
    match error {
        AnchorClientError::Blocker { blocker } => coded_blocker(
            &blocker,
            blocker.to_json().to_text(),
        ),
        other => CodedError::new(other.code(), other.message().as_str()),
    }
}

/// A failure is reported under its own code, unless it is an unknown blocker that was kept with a
/// code: that one is reported under the code it was kept with.
pub proof fn law_failures_keep_their_code(coded: CodedError, error: AnchorClientError)
    requires
        codes(coded, error),
    ensures
        coded.code@ == match error {
            AnchorClientError::Blocker { blocker } => match blocker@ {
                BlockerView::Other { code: Some(code), .. } => code,
                _ => client_code(error),
            },
            _ => client_code(error),
        },
{
}

} // verus!
