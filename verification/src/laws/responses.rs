use vstd::prelude::*;

use crate::blocker::AssetMovementBlocker;
use crate::envelope::{
    classify, classify_document, envelope_in, failure, header_delay_ms, pending_delay,
    read_envelope, retry_delay, AnchorOutcome, Envelope,
};
use crate::error::AnchorClientError;
use crate::json::{Json, JsonView};
use crate::laws::blockers::{lemma_reported_is_told, text_at, told, typed};
use crate::transport::{HttpResponse, RetryAfter};
use crate::value::{read_json, whole_number};

verus! {

/// Whether the body `document` says `ok` and means `flag`.
pub open spec fn says_ok(document: JsonView, flag: bool) -> bool {
    &&& document is Object
    &&& document->Object_0.contains_key("ok"@)
    &&& document->Object_0["ok"@] == JsonView::Bool(flag)
}

/// Whether the body `document` asks to be tried again after `delay` milliseconds.
pub open spec fn asks_for(document: JsonView, delay: u32) -> bool {
    &&& document is Object
    &&& document->Object_0.contains_key("retryAfter"@)
    &&& document->Object_0["retryAfter"@] is Number
    &&& whole_number(document->Object_0["retryAfter"@]->Number_0) == Some(delay as u64)
}

/// Whether `envelope` has what a body says that was read as `body`, and as `scanned` for its two
/// fields.
pub open spec fn has_fields(
    envelope: Envelope,
    body: Result<JsonView, serde_json::Error>,
    scanned: Result<Envelope, serde_json::Error>,
) -> bool {
    &&& body matches Ok(document) ==> {
        &&& forall|flag: bool| envelope.ok == Some(flag) <==> #[trigger] says_ok(document, flag)
        &&& forall|delay: u32|
            envelope.retry_after == Some(delay) <==> #[trigger] asks_for(document, delay)
    }
    &&& body is Err && scanned is Ok ==> envelope == scanned->Ok_0
    &&& body is Err && scanned is Err ==> envelope.ok is None && envelope.retry_after is None
}

/// The response is made as it is told, and its status reports success from 200 up to 299.
pub proof fn law_a_response_keeps_what_it_is_made_of(
    status: u16,
    body: Vec<u8>,
    header: Option<RetryAfter>,
    plain: HttpResponse,
    response: HttpResponse,
    success: bool,
)
    requires
        call_ensures(HttpResponse::new, (status, body), plain),
        call_ensures(HttpResponse::with_retry_after, (plain, header), response),
        call_ensures(HttpResponse::is_success, (&response,), success),
    ensures
        plain.retry_after is None,
        plain.status == status && response.status == status,
        plain.body == body && response.body == body,
        response.retry_after == header,
        success <==> status / 100 == 2,
{
}

/// A header gives its seconds as milliseconds, or nothing where they do not fit or where only a
/// clock could tell them.
pub proof fn law_a_header_is_told_in_milliseconds(
    header: RetryAfter,
    delay: Option<u32>,
    millis: Option<u64>,
)
    requires
        call_ensures(header_delay_ms, (&header,), delay),
        call_ensures(RetryAfter::to_millis, (&header,), millis),
    ensures
        header is HttpDate ==> delay is None && millis is None,
        header matches RetryAfter::Seconds(seconds) ==> {
            &&& delay is Some <==> 1000 * seconds <= 0xffff_ffff
            &&& delay is Some ==> delay->0 == 1000 * seconds
            &&& millis is Some <==> 1000 * seconds <= 0xffff_ffff_ffff_ffff
            &&& millis is Some ==> millis->0 == 1000 * seconds
        },
{
}

/// The envelope has each field exactly where the body says it, whatever the other field is.
pub proof fn law_an_envelope_has_what_the_body_says(
    response: HttpResponse,
    scanned: Result<Envelope, serde_json::Error>,
    envelope: Envelope,
)
    requires
        call_ensures(read_envelope, (&response, scanned), envelope),
    ensures
        has_fields(envelope, read_json(response.body@), scanned),
{
}

/// The envelope of a body that was already read is the one that reading the response gives.
pub proof fn law_a_read_body_has_the_same_envelope(
    body: Result<Json, serde_json::Error>,
    scanned: Result<Envelope, serde_json::Error>,
    envelope: Envelope,
)
    requires
        call_ensures(envelope_in, (&body, scanned), envelope),
    ensures
        has_fields(
            envelope,
            match body {
                Ok(document) => Ok(document@),
                Err(error) => Err(error),
            },
            scanned,
        ),
{
}

/// A body's own delay comes first, then that of the header, then half a second for a resource that
/// is accepted or not there yet; any other response is settled.
pub proof fn law_delays_are_ranked(
    response: HttpResponse,
    envelope: Envelope,
    delay: Option<u32>,
)
    requires
        call_ensures(retry_delay, (&response, &envelope), delay),
    ensures
        envelope.retry_after is Some ==> delay == envelope.retry_after,
        envelope.retry_after is None ==> (forall|seconds: u64|
            response.retry_after == Some(RetryAfter::Seconds(seconds)) && #[trigger] (1000
                * seconds) <= 0xffff_ffff ==> delay is Some && delay->0 == 1000 * seconds),
        envelope.retry_after is None && !(exists|seconds: u64|
            response.retry_after == Some(RetryAfter::Seconds(seconds)) && #[trigger] (1000
                * seconds) <= 0xffff_ffff) ==> {
            &&& delay is Some <==> response.status == 404 || response.status == 202
            &&& delay is Some ==> delay->0 == 500
        },
{
    if let Some(RetryAfter::Seconds(seconds)) = response.retry_after {
        assert(1000 * seconds == seconds * 1000);
    }
}

/// The default envelope says nothing.
pub proof fn law_the_default_envelope_says_nothing(envelope: Envelope)
    requires
        call_ensures(<Envelope as Default>::default, (), envelope),
    ensures
        envelope.ok is None,
        envelope.retry_after is None,
{
}

/// Asking for the delay alone and classifying the response read one envelope.
pub proof fn law_pending_is_what_the_envelope_and_the_header_say(
    response: HttpResponse,
    scanned: Result<Envelope, serde_json::Error>,
    envelope: Envelope,
    delay: Option<u32>,
    pending: Option<u32>,
)
    requires
        call_ensures(read_envelope, (&response, scanned), envelope),
        call_ensures(retry_delay, (&response, &envelope), delay),
        call_ensures(pending_delay, (&response, scanned), pending),
    ensures
        pending == delay,
{
}

/// Whether `error` reports a failed response with `status` and a body that reads as `body`: a body
/// with one of the four known codes gives the blocker it tells, and any other body the status.
pub open spec fn told_failure(
    error: AnchorClientError,
    status: u16,
    body: Result<JsonView, serde_json::Error>,
) -> bool {
    if body is Ok && typed(text_at(body->Ok_0, "code"@)) {
        error matches AnchorClientError::Blocker { blocker } && told(blocker, body->Ok_0)
    } else {
        error == (AnchorClientError::Service { status })
    }
}

proof fn lemma_reports_tell(
    error: AnchorClientError,
    status: u16,
    body: Result<JsonView, serde_json::Error>,
)
    requires
        crate::envelope::reports(error, status, body),
    ensures
        told_failure(error, status, body),
{
    if let Ok(document) = body {
        if let AnchorClientError::Blocker { blocker } = error {
            lemma_reported_is_told(blocker, document);
        }
    }
}

/// A failure with a known code is the blocker that the body tells, and any other failure is the
/// status.
pub proof fn law_a_known_code_is_never_lost(
    status: u16,
    body: Result<Json, serde_json::Error>,
    error: AnchorClientError,
)
    requires
        call_ensures(failure, (status, body), error),
    ensures
        told_failure(
            error,
            status,
            match body {
                Ok(document) => Ok(document@),
                Err(reason) => Err(reason),
            },
        ),
{
    lemma_reports_tell(
        error,
        status,
        match body {
            Ok(document) => Ok(document@),
            Err(reason) => Err(reason),
        },
    );
}

/// A response is to be retried exactly when it is pending; else, where its status or its body reports
/// failure, it is the failure told by the body; else it is the decoded value, or the decoder's reason.
pub proof fn law_a_response_is_pending_failed_or_ready<T>(
    response: HttpResponse,
    scanned: Result<Envelope, serde_json::Error>,
    decoded: Result<T, serde_json::Error>,
    envelope: Envelope,
    pending: Option<u32>,
    outcome: Result<AnchorOutcome<T>, AnchorClientError>,
)
    requires
        call_ensures(read_envelope, (&response, scanned), envelope),
        call_ensures(pending_delay, (&response, scanned), pending),
        call_ensures(classify::<T>, (&response, scanned, decoded), outcome),
    ensures
        pending is Some ==> outcome == Ok::<AnchorOutcome<T>, AnchorClientError>(
            AnchorOutcome::Retry { after_ms: pending->0 },
        ),
        pending is None && (response.status / 100 != 2 || envelope.ok == Some(false)) ==> outcome
            is Err && told_failure(
            outcome->Err_0,
            response.status,
            read_json(response.body@),
        ),
        pending is None && response.status / 100 == 2 && envelope.ok != Some(false) ==> match decoded {
            Ok(value) => outcome == Ok::<AnchorOutcome<T>, AnchorClientError>(
                AnchorOutcome::Ready(value),
            ),
            Err(error) => outcome matches Err(AnchorClientError::Body { reason })
                && vstd::string::to_string_from_display_ensures::<serde_json::Error>(
                &error,
                reason,
            ),
        },
{
    if pending is None && (response.status / 100 != 2 || envelope.ok == Some(false)) {
        lemma_reports_tell(outcome->Err_0, response.status, read_json(response.body@));
    }
}

/// A settled failure whose body has a known code comes out as a blocker with that code, and the
/// status is given only where the body does not read or its code is not known.
pub proof fn law_a_failure_keeps_the_code_of_its_body<T>(
    response: HttpResponse,
    scanned: Result<Envelope, serde_json::Error>,
    decoded: Result<T, serde_json::Error>,
    envelope: Envelope,
    outcome: Result<AnchorOutcome<T>, AnchorClientError>,
    blocker: AssetMovementBlocker,
    code: Option<&'static str>,
)
    requires
        call_ensures(read_envelope, (&response, scanned), envelope),
        call_ensures(pending_delay, (&response, scanned), None),
        call_ensures(classify::<T>, (&response, scanned, decoded), outcome),
        response.status / 100 != 2 || envelope.ok == Some(false),
        call_ensures(AssetMovementBlocker::static_transport_code, (&blocker,), code),
    ensures
        outcome == Err::<AnchorOutcome<T>, AnchorClientError>(
            AnchorClientError::Service { status: response.status },
        ) <==> !(read_json(response.body@) is Ok && typed(
            text_at(read_json(response.body@)->Ok_0, "code"@),
        )),
        outcome == Err::<AnchorOutcome<T>, AnchorClientError>(
            AnchorClientError::Blocker { blocker },
        ) ==> code is Some && read_json(response.body@) is Ok && code->0@ == text_at(
            read_json(response.body@)->Ok_0,
            "code"@,
        )->0,
        outcome is Err && (outcome->Err_0 is Service || outcome->Err_0 is Blocker),
{
    lemma_reports_tell(outcome->Err_0, response.status, read_json(response.body@));
}

/// Where the value is the body's document, a ready response gives the document that the body says,
/// and otherwise it is classified as for any other value.
pub proof fn law_a_ready_document_is_the_body(
    response: HttpResponse,
    scanned: Result<Envelope, serde_json::Error>,
    envelope: Envelope,
    pending: Option<u32>,
    outcome: Result<AnchorOutcome<Json>, AnchorClientError>,
)
    requires
        call_ensures(read_envelope, (&response, scanned), envelope),
        call_ensures(pending_delay, (&response, scanned), pending),
        call_ensures(classify_document, (&response, scanned), outcome),
    ensures
        pending is Some ==> outcome == Ok::<AnchorOutcome<Json>, AnchorClientError>(
            AnchorOutcome::Retry { after_ms: pending->0 },
        ),
        pending is None && (response.status / 100 != 2 || envelope.ok == Some(false)) ==> outcome
            is Err && told_failure(
            outcome->Err_0,
            response.status,
            read_json(response.body@),
        ),
        pending is None && response.status / 100 == 2 && envelope.ok != Some(false) ==> match read_json(
            response.body@,
        ) {
            Ok(document) => outcome matches Ok(AnchorOutcome::Ready(value)) && value@ == document,
            Err(error) => outcome matches Err(AnchorClientError::Body { reason })
                && vstd::string::to_string_from_display_ensures::<serde_json::Error>(
                &error,
                reason,
            ),
        },
{
    if pending is None && (response.status / 100 != 2 || envelope.ok == Some(false)) {
        lemma_reports_tell(outcome->Err_0, response.status, read_json(response.body@));
    }
}

/// A value comes out of an outcome exactly when it is ready.
pub proof fn law_only_a_ready_outcome_has_a_value<T>(
    outcome: AnchorOutcome<T>,
    value: Option<T>,
)
    requires
        call_ensures(AnchorOutcome::<T>::ready, (outcome,), value),
    ensures
        value is Some <==> outcome is Ready,
        value is Some ==> outcome == AnchorOutcome::Ready(value->0),
{
}

} // verus!
