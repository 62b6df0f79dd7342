use vstd::prelude::*;

use crate::blocker::{blocker_of, AssetMovementBlocker};
use crate::error::{printed, AnchorClientError};
use crate::json::{member, Json, JsonView};
use crate::transport::{success_status, HttpResponse, RetryAfter};
use crate::value::{read_json, whole_number};

verus! {

/// The retry delay of a pending resource that gives no hint.
pub const DEFAULT_RETRY_MS: u32 = 500;

/// The status of a polled resource that is not yet ready.
pub const NOT_FOUND: u16 = 404;

/// The status of an accepted operation that is still processing.
pub const ACCEPTED: u16 = 202;

/// The result of an anchor operation that the provider may report as pending.
#[derive(Clone, Debug, PartialEq, Eq)]
pub enum AnchorOutcome<T> {
    /// The operation completed with a decoded value.
    Ready(T),
    /// The resource is not ready; retry after the suggested delay.
    Retry {
        /// Suggested delay before retrying, in milliseconds.
        after_ms: u32,
    },
}

impl<T> AnchorOutcome<T> {
    /// The ready value, or [`None`] when the provider asked the caller to retry.
    pub fn ready(self) -> (value: Option<T>)
        ensures
            value == match self {
                AnchorOutcome::Ready(value) => Some(value),
                AnchorOutcome::Retry { .. } => None,
            },
    {
        match self {
            Self::Ready(value) => Some(value),
            Self::Retry { .. } => None,
        }
    }
}

/// The response fields every anchor operation shares.
#[derive(Clone, Copy, Debug, PartialEq, Eq)]
pub struct Envelope {
    /// Whether the anchor reports success, when it says so.
    pub ok: Option<bool>,
    /// The delay after which to retry, in milliseconds, when the body gives one.
    pub retry_after: Option<u32>,
}

impl Default for Envelope {
    fn default() -> (envelope: Self)
        ensures
            envelope == (Envelope { ok: None, retry_after: None }),
    {
        Envelope { ok: None, retry_after: None }
    }
}

/// The flag that `document` is, when it is `true` or `false`.
pub open spec fn flag_of(document: Option<JsonView>) -> Option<bool> {
    match document {
        Some(JsonView::Bool(flag)) => Some(flag),
        _ => None,
    }
}

/// The delay that `document` is, when it is a whole number of milliseconds that fits in the outcome.
pub open spec fn hint_of(document: Option<JsonView>) -> Option<u32> {
    match document {
        Some(JsonView::Number(number)) => match whole_number(number) {
            Some(delay) => if delay <= u32::MAX {
                Some(delay as u32)
            } else {
                None
            },
            None => None,
        },
        _ => None,
    }
}

/// The envelope of a body that reads as `body`: each field for itself, whatever the other holds.
///
/// Some bodies are refused as a document and still have an envelope, such as one with a number out
/// of range under another name. Of those, and of no others, `scanned` tells the envelope: the body
/// read for the two fields alone. It is empty where that fails too.
pub open spec fn envelope_of(
    body: Result<JsonView, serde_json::Error>,
    scanned: Result<Envelope, serde_json::Error>,
) -> Envelope {
    match body {
        Ok(document) => Envelope {
            ok: flag_of(member(document, "ok"@)),
            retry_after: hint_of(member(document, "retryAfter"@)),
        },
        Err(_) => match scanned {
            Ok(envelope) => envelope,
            Err(_) => Envelope { ok: None, retry_after: None },
        },
    }
}

/// The delay of a `Retry-After` header that needs no wall clock and fits in the outcome.
pub open spec fn header_delay(header: Option<RetryAfter>) -> Option<u32> {
    match header {
        Some(header) => match header.millis() {
            Some(delay) => if delay <= u32::MAX {
                Some(delay as u32)
            } else {
                None
            },
            None => None,
        },
        None => None,
    }
}

/// The delay after which to retry a response, when it reports a pending resource: the body's hint,
/// else the header's, else the default for a status that means pending.
pub open spec fn delay_of(response: HttpResponse, envelope: Envelope) -> Option<u32> {
    if envelope.retry_after is Some {
        envelope.retry_after
    } else if header_delay(response.retry_after) is Some {
        header_delay(response.retry_after)
    } else if response.status == NOT_FOUND || response.status == ACCEPTED {
        Some(DEFAULT_RETRY_MS)
    } else {
        None
    }
}

/// Whether a response reports failure, by its status or in its envelope.
pub open spec fn failed(response: HttpResponse, envelope: Envelope) -> bool {
    !success_status(response.status) || envelope.ok == Some(false)
}

/// Whether `error` reports a failed response with `status` and `body`: the blocker that the body
/// describes where its code is known, else the status.
pub open spec fn reports(
    error: AnchorClientError,
    status: u16,
    body: Result<JsonView, serde_json::Error>,
) -> bool {
    match body {
        Ok(document) => if blocker_of(document) is Other {
            error == (AnchorClientError::Service { status })
        } else {
            error matches AnchorClientError::Blocker { blocker } && blocker@ == blocker_of(document)
        },
        Err(_) => error == (AnchorClientError::Service { status }),
    }
}

/// Whether `outcome` is what a response means, where `body`, `scanned` and `decoded` are its body read
/// as a JSON document, for the envelope's fields alone, and as the operation's value.
pub open spec fn classified<T>(
    response: HttpResponse,
    body: Result<JsonView, serde_json::Error>,
    scanned: Result<Envelope, serde_json::Error>,
    decoded: Result<T, serde_json::Error>,
    outcome: Result<AnchorOutcome<T>, AnchorClientError>,
) -> bool {
    match delay_of(response, envelope_of(body, scanned)) {
        Some(after_ms) => outcome == Ok::<AnchorOutcome<T>, AnchorClientError>(
            AnchorOutcome::Retry { after_ms },
        ),
        None => if failed(response, envelope_of(body, scanned)) {
            outcome matches Err(error) && reports(error, response.status, body)
        } else {
            match decoded {
                Ok(value) => outcome == Ok::<AnchorOutcome<T>, AnchorClientError>(
                    AnchorOutcome::Ready(value),
                ),
                Err(error) => outcome matches Err(AnchorClientError::Body { reason }) && printed(
                    &error,
                    reason,
                ),
            }
        },
    }
}

/// Reads the delay that `number` is, when it is whole and fits.
fn read_hint(number: &serde_json::Number) -> (hint: Option<u32>)
    ensures
        hint == hint_of(Some(JsonView::Number(*number))),
{
    match number.as_u64() {
        Some(delay) => if delay <= u32::MAX as u64 {
            Some(delay as u32)
        } else {
            None
        },
        None => None,
    }
}

/// The envelope of a body that was read as `body`, and as `scanned` for the two fields alone.
pub fn envelope_in(
    body: &Result<Json, serde_json::Error>,
    scanned: Result<Envelope, serde_json::Error>,
) -> (envelope: Envelope)
    ensures
        envelope == envelope_of(
            match *body {
                Ok(document) => Ok(document@),
                Err(error) => Err(error),
            },
            scanned,
        ),
{
    match body {
        Ok(document) => {
            let ok = match document.get("ok") {
                Some(Json::Bool(flag)) => Some(*flag),
                _ => None,
            };
            let retry_after = match document.get("retryAfter") {
                Some(Json::Number(number)) => read_hint(number),
                _ => None,
            };
            Envelope { ok, retry_after }
        },
        Err(_) => match scanned {
            Ok(envelope) => envelope,
            Err(_) => Envelope::default(),
        },
    }
}

/// Reads the envelope of `response` from its body, which was read as `scanned` for the two fields
/// alone.
pub fn read_envelope(
    response: &HttpResponse,
    scanned: Result<Envelope, serde_json::Error>,
) -> (envelope: Envelope)
    ensures
        envelope == envelope_of(read_json(response.body@), scanned),
{
    envelope_in(&Json::from_slice(response.body.as_slice()), scanned)
}

/// The delay of a `Retry-After` header that needs no wall clock and fits in the outcome.
pub fn header_delay_ms(retry_after: &RetryAfter) -> (delay: Option<u32>)
    ensures
        delay == header_delay(Some(*retry_after)),
{
    match retry_after.to_millis() {
        Some(millis) => if millis <= u32::MAX as u64 {
            Some(millis as u32)
        } else {
            None
        },
        None => None,
    }
}

/// The retry delay of a pending resource: an explicit body `retryAfter`, otherwise the response's
/// `Retry-After` header, otherwise a default for an accepted or a missing resource.
pub fn retry_delay(response: &HttpResponse, envelope: &Envelope) -> (delay: Option<u32>)
    ensures
        delay == delay_of(*response, *envelope),
{
    if let Some(after_ms) = envelope.retry_after {
        return Some(after_ms);
    }
    if let Some(header) = &response.retry_after {
        if let Some(after_ms) = header_delay_ms(header) {
            return Some(after_ms);
        }
    }
    if response.status == NOT_FOUND || response.status == ACCEPTED {
        return Some(DEFAULT_RETRY_MS);
    }
    None
}

/// The retry delay when `response` reports a pending resource, or [`None`] when it is settled. The
/// body counts only for the envelope read from it, so a settled response with an opaque body still
/// resolves.
pub fn pending_delay(
    response: &HttpResponse,
    scanned: Result<Envelope, serde_json::Error>,
) -> (delay: Option<u32>)
    ensures
        delay == delay_of(*response, envelope_of(read_json(response.body@), scanned)),
{
    retry_delay(response, &read_envelope(response, scanned))
}

/// The error that a failed response with `status` means, where `body` is its body read as JSON.
pub fn failure(status: u16, body: Result<Json, serde_json::Error>) -> (error: AnchorClientError)
    ensures
        reports(
            error,
            status,
            match body {
                Ok(document) => Ok(document@),
                Err(error) => Err(error),
            },
        ),
{
    if let Ok(document) = body {
        let blocker = AssetMovementBlocker::from_transport(&document);
        if blocker.is_recognized() {
            return AnchorClientError::Blocker { blocker };
        }
    }
    AnchorClientError::Service { status }
}

/// What `response` means, where `scanned` and `decoded` are its body read for the envelope's fields
/// alone and as the operation's value.
///
/// A pending status or a retry hint gives [`AnchorOutcome::Retry`]. Any other non-2xx status, or an
/// `ok: false` envelope, gives [`AnchorClientError::Blocker`] where the body describes a known
/// blocker and [`AnchorClientError::Service`] where it does not. Otherwise the decoded value is
/// ready, or [`AnchorClientError::Body`] says why there is none.
pub fn classify<T>(
    response: &HttpResponse,
    scanned: Result<Envelope, serde_json::Error>,
    decoded: Result<T, serde_json::Error>,
) -> (outcome: Result<AnchorOutcome<T>, AnchorClientError>)
    ensures
        classified(*response, read_json(response.body@), scanned, decoded, outcome),
{
    let body = Json::from_slice(response.body.as_slice());
    let envelope = envelope_in(&body, scanned);
    if let Some(after_ms) = retry_delay(response, &envelope) {
        return Ok(AnchorOutcome::Retry { after_ms });
    }
    if !response.is_success() || envelope.ok == Some(false) {
        return Err(failure(response.status, body));
    }
    match decoded {
        Ok(value) => Ok(AnchorOutcome::Ready(value)),
        Err(error) => Err(AnchorClientError::from(error)),
    }
}

/// What `response` means when the operation's value is its body as a JSON document.
pub fn classify_document(
    response: &HttpResponse,
    scanned: Result<Envelope, serde_json::Error>,
) -> (outcome: Result<AnchorOutcome<Json>, AnchorClientError>)
    ensures
        match delay_of(*response, envelope_of(read_json(response.body@), scanned)) {
            Some(after_ms) => outcome == Ok::<AnchorOutcome<Json>, AnchorClientError>(
                AnchorOutcome::Retry { after_ms },
            ),
            None => if failed(*response, envelope_of(read_json(response.body@), scanned)) {
                outcome matches Err(error) && reports(
                    error,
                    response.status,
                    read_json(response.body@),
                )
            } else {
                match read_json(response.body@) {
                    Ok(document) => outcome matches Ok(AnchorOutcome::Ready(value)) && value@
                        == document,
                    Err(error) => outcome matches Err(AnchorClientError::Body { reason })
                        && printed(&error, reason),
                }
            },
        },
{
    classify(response, scanned, Json::from_slice(response.body.as_slice()))
}

/// A response is to be retried exactly when it is pending, and after the delay that
/// [`pending_delay`] tells.
pub proof fn law_retry_exactly_when_pending<T>(
    response: HttpResponse,
    body: Result<JsonView, serde_json::Error>,
    scanned: Result<Envelope, serde_json::Error>,
    decoded: Result<T, serde_json::Error>,
    outcome: Result<AnchorOutcome<T>, AnchorClientError>,
    after_ms: u32,
)
    requires
        classified(response, body, scanned, decoded, outcome),
    ensures
        delay_of(response, envelope_of(body, scanned)) == Some(after_ms) <==> outcome == Ok::<
            AnchorOutcome<T>,
            AnchorClientError,
        >(AnchorOutcome::Retry { after_ms }),
{
}

/// An accepted or missing resource is always to be retried, whatever its body and headers hold.
pub proof fn law_pending_status_always_retries<T>(
    response: HttpResponse,
    body: Result<JsonView, serde_json::Error>,
    scanned: Result<Envelope, serde_json::Error>,
    decoded: Result<T, serde_json::Error>,
    outcome: Result<AnchorOutcome<T>, AnchorClientError>,
)
    requires
        classified(response, body, scanned, decoded, outcome),
        response.status == ACCEPTED || response.status == NOT_FOUND,
    ensures
        outcome matches Ok(AnchorOutcome::Retry { .. }),
{
}

/// A body hint outranks the `Retry-After` header, and the header outranks the default.
pub proof fn law_retry_hints_are_ranked(response: HttpResponse, envelope: Envelope)
    ensures
        envelope.retry_after is Some ==> delay_of(response, envelope) == envelope.retry_after,
        envelope.retry_after is None && header_delay(response.retry_after) is Some ==> delay_of(
            response,
            envelope,
        ) == header_delay(response.retry_after),
{
}

/// A value is ready only where the response is settled, reports no failure, and decodes to it.
pub proof fn law_ready_only_on_success<T>(
    response: HttpResponse,
    body: Result<JsonView, serde_json::Error>,
    scanned: Result<Envelope, serde_json::Error>,
    decoded: Result<T, serde_json::Error>,
    outcome: Result<AnchorOutcome<T>, AnchorClientError>,
    value: T,
)
    requires
        classified(response, body, scanned, decoded, outcome),
        outcome == Ok::<AnchorOutcome<T>, AnchorClientError>(AnchorOutcome::Ready(value)),
    ensures
        success_status(response.status),
        envelope_of(body, scanned).ok != Some(false),
        delay_of(response, envelope_of(body, scanned)) is None,
        decoded == Ok::<T, serde_json::Error>(value),
{
}

/// A settled failure is never answered with a value: it gives the known blocker that the body
/// describes, or the status.
pub proof fn law_failures_are_reported<T>(
    response: HttpResponse,
    body: Result<JsonView, serde_json::Error>,
    scanned: Result<Envelope, serde_json::Error>,
    decoded: Result<T, serde_json::Error>,
    outcome: Result<AnchorOutcome<T>, AnchorClientError>,
)
    requires
        classified(response, body, scanned, decoded, outcome),
        delay_of(response, envelope_of(body, scanned)) is None,
        failed(response, envelope_of(body, scanned)),
    ensures
        outcome matches Err(error) && (error == (AnchorClientError::Service {
            status: response.status,
        }) || (error matches AnchorClientError::Blocker { blocker } && !(blocker@ is Other))),
{
}

/// A body that says `ok: false` is never answered with a value, whatever else it holds: it is to be
/// retried, or it is a failure.
pub proof fn law_a_refusal_is_never_ready<T>(
    response: HttpResponse,
    document: JsonView,
    scanned: Result<Envelope, serde_json::Error>,
    decoded: Result<T, serde_json::Error>,
    outcome: Result<AnchorOutcome<T>, AnchorClientError>,
)
    requires
        classified(response, Ok(document), scanned, decoded, outcome),
        member(document, "ok"@) == Some(JsonView::Bool(false)),
    ensures
        outcome matches Ok(AnchorOutcome::Ready(_)) ==> false,
        delay_of(response, envelope_of(Ok(document), scanned)) is None ==> outcome is Err,
{
}

/// A body with a delay under `retryAfter` is to be retried after it, whatever else the response
/// holds.
pub proof fn law_a_hint_is_always_followed<T>(
    response: HttpResponse,
    document: JsonView,
    scanned: Result<Envelope, serde_json::Error>,
    decoded: Result<T, serde_json::Error>,
    outcome: Result<AnchorOutcome<T>, AnchorClientError>,
    after_ms: u32,
)
    requires
        classified(response, Ok(document), scanned, decoded, outcome),
        hint_of(member(document, "retryAfter"@)) == Some(after_ms),
    ensures
        outcome == Ok::<AnchorOutcome<T>, AnchorClientError>(AnchorOutcome::Retry { after_ms }),
{
}

} // verus!
