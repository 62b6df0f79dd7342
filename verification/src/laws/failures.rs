use vstd::prelude::*;

use crate::blocker::{AccountStatus, AssetMovementBlocker};
use crate::coded::{
    coded, coded_blocker, codes, encode, encode_absent, encode_account_status, encode_ack, encoded,
    invalid, invalid_input, one_answer, parse, unreadable, CodedError,
};
use crate::error::{AnchorClientError, ResolverError, TransportError};
use crate::json::{Json, JsonView};
use crate::laws::blockers::{lemma_status_is_told, lemma_to_json_shows, shown, status_told};
use crate::session::account_status;
use crate::source::{
    AccountError, ClientError, KycCertificateError, RequestError, ResilienceError,
    SharableAttributesError, SigningError,
};
use crate::text::decimal;
use crate::value::written_bytes;

verus! {

/// Whether `error` refuses an argument with the reader's reason.
pub open spec fn refused(error: CodedError, reason: serde_json::Error) -> bool {
    &&& error.code@ == "INVALID_INPUT"@
    &&& vstd::string::to_string_from_display_ensures::<serde_json::Error>(&reason, error.message)
}

/// Whether `error` says that a payload could not be written, with the writer's reason.
pub open spec fn unwritten(error: CodedError, reason: serde_json::Error) -> bool {
    &&& error.code@ == "ENCODE"@
    &&& vstd::string::to_string_from_display_ensures::<serde_json::Error>(&reason, error.message)
}

/// The code under which callers tell a blocker.
pub open spec fn code_told(blocker: AssetMovementBlocker) -> Seq<char> {
    match blocker {
        AssetMovementBlocker::KycShareNeeded {
            ..
        } => "KEETA_ANCHOR_ASSET_MOVEMENT_KYC_SHARE_NEEDED"@,
        AssetMovementBlocker::AdditionalKycNeeded {
            ..
        } => "KEETA_ANCHOR_ASSET_MOVEMENT_ADDITIONAL_KYC_NEEDED"@,
        AssetMovementBlocker::OperationNotSupported {
            ..
        } => "KEETA_ANCHOR_ASSET_MOVEMENT_OPERATION_NOT_SUPPORTED"@,
        AssetMovementBlocker::UserActionNeeded {
            ..
        } => "KEETA_ANCHOR_ASSET_MOVEMENT_USER_ACTION_NEEDED"@,
        AssetMovementBlocker::Other { code, .. } => if code is Some {
            code->0@
        } else {
            "SERVICE"@
        },
    }
}

/// Whether `message` is what is read of a transport failure.
pub open spec fn transport_reads(message: Seq<char>, error: TransportError) -> bool {
    match error {
        TransportError::Request { reason } => message == "transport request failed: "@ + reason@,
        TransportError::InvalidUrl { reason } => message == "invalid request URL: "@ + reason@,
        TransportError::Resilience { source } => message == source.message@,
    }
}

/// Whether `message` is what is read of a resolver failure.
pub open spec fn resolver_reads(message: Seq<char>, error: ResolverError) -> bool {
    match error {
        ResolverError::Base64 { reason } => message == "metadata base64 is invalid: "@ + reason@,
        ResolverError::Utf8 => message == "metadata is not valid UTF-8"@,
        ResolverError::Json { reason } => message == "metadata JSON is invalid: "@ + reason@,
        ResolverError::Field { field } => message == "metadata field `"@ + field@
            + "` is missing or malformed"@,
        ResolverError::UnsupportedScheme { scheme } => message
            == "unsupported metadata reference scheme: "@ + scheme@,
        ResolverError::NotFound { location } => message == "metadata location not found: "@
            + location@,
        ResolverError::NoRootMetadata => message == "no valid root metadata found"@,
        ResolverError::Account { source } => message == "invalid account reference: "@
            + source.message@,
        ResolverError::Transport { source } => exists|inner: Seq<char>| #[trigger]
            transport_reads(inner, source) && message == "metadata fetch failed: "@ + inner,
        ResolverError::Node { source } => message == "node read failed: "@ + source.message@,
    }
}

/// Whether `message` is what is read of an anchor client failure.
pub open spec fn client_reads(message: Seq<char>, error: AnchorClientError) -> bool {
    match error {
        AnchorClientError::Transport { source } => transport_reads(message, source),
        AnchorClientError::Resolver { source } => resolver_reads(message, source),
        AnchorClientError::Url { reason } => message == "invalid operation URL: "@ + reason@,
        AnchorClientError::Signing { source } => message == "request signing failed: "@
            + source.message@,
        AnchorClientError::Request { source } => message == "request URL signing failed: "@
            + source.message@,
        AnchorClientError::Body { reason } => message == "anchor response body is invalid: "@
            + reason@,
        AnchorClientError::Service { status } => forall|number: String| #[trigger]
            call_ensures(decimal, (status as u32,), number) ==> message
                == "anchor request failed (status "@ + number@ + ")"@,
        AnchorClientError::Blocker { .. } => message == "asset-movement blocker"@,
        AnchorClientError::UnsupportedOperation { operation } => message
            == "provider does not advertise the `"@ + operation@ + "` operation"@,
        AnchorClientError::Timeout { operation, timeout_ms } => forall|number: String| #[trigger]
            call_ensures(decimal, (timeout_ms,), number) ==> message == "operation `"@ + operation@
                + "` did not complete within "@ + number@ + " ms"@,
        AnchorClientError::ReferenceFetch { url, status } => forall|number: String| #[trigger]
            call_ensures(decimal, (status as u32,), number) ==> message
                == "reference fetch failed for `"@ + url@ + "` (status "@ + number@ + ")"@,
        AnchorClientError::Sharable { source } => match source {
            SharableAttributesError::InvalidPem { message: own } => message == own@,
            SharableAttributesError::Certificate { message: own, .. } => message == own@,
            SharableAttributesError::Other { message: own } => message == own@,
        },
    }
}

/// Whether `code` is the stable code of an anchor client failure.
pub open spec fn stable_code(code: Seq<char>, error: AnchorClientError) -> bool {
    match error {
        AnchorClientError::Transport { .. } => code == "TRANSPORT"@,
        AnchorClientError::Resolver { .. } => code == "RESOLVER"@,
        AnchorClientError::Url { .. } => code == "INVALID_URL"@,
        AnchorClientError::Signing { .. } => code == "SIGNING"@,
        AnchorClientError::Request { .. } => code == "REQUEST"@,
        AnchorClientError::Body { .. } => code == "INVALID_BODY"@,
        AnchorClientError::Service { .. } => code == "SERVICE"@,
        AnchorClientError::Blocker { blocker } => code == if blocker is Other {
            "SERVICE"@
        } else {
            code_told(blocker)
        },
        AnchorClientError::UnsupportedOperation { .. } => code == "UNSUPPORTED_OPERATION"@,
        AnchorClientError::Timeout { .. } => code == "TIMEOUT"@,
        AnchorClientError::ReferenceFetch { .. } => code == "REFERENCE_FETCH"@,
        AnchorClientError::Sharable { .. } => code == "SHARABLE"@,
    }
}

/// Whether `coded` is how callers are told of `error`: a blocker by its own code and its whole JSON,
/// any other failure by its stable code and what is read of it.
pub open spec fn coded_as(coded: CodedError, error: AnchorClientError) -> bool {
    match error {
        AnchorClientError::Blocker { blocker } => {
            &&& coded.code@ == code_told(blocker)
            &&& exists|said: Map<Seq<char>, JsonView>| #[trigger]
                shown(said, blocker) && vstd::utf8::encode_utf8(coded.message@) == written_bytes(
                    JsonView::Object(said),
                )
        },
        _ => stable_code(coded.code@, error) && client_reads(coded.message@, error),
    }
}

proof fn lemma_transport_reads(error: TransportError)
    ensures
        transport_reads(crate::error::transport_message(error), error),
{
}

proof fn lemma_resolver_reads(error: ResolverError)
    ensures
        resolver_reads(crate::error::resolver_message(error), error),
{
    if let ResolverError::Transport { source } = error {
        lemma_transport_reads(source);
    }
}

proof fn lemma_client_reads(error: AnchorClientError)
    ensures
        client_reads(crate::error::client_message(error), error),
{
    match error {
        AnchorClientError::Transport { source } => lemma_transport_reads(source),
        AnchorClientError::Resolver { source } => lemma_resolver_reads(source),
        _ => {},
    }
}

/// A coded failure is told as it should be.
pub proof fn lemma_codes_tell(coded: CodedError, error: AnchorClientError)
    ensures
        codes(coded, error) ==> coded_as(coded, error),
{
    lemma_client_reads(error);
    if let AnchorClientError::Blocker { blocker } = error {
        lemma_to_json_shows(blocker);
        assert(shown(blocker@.to_json()->Object_0, blocker));
    }
}

/// A failure is told by its own code and message, and a blocker by its own code and its whole JSON.
pub proof fn law_a_failure_is_told_in_full(error: AnchorClientError, told: CodedError)
    requires
        call_ensures(coded, (error,), told),
    ensures
        coded_as(told, error),
{
    lemma_codes_tell(told, error);
}

/// A blocker that cannot be written is told by its code alone.
pub proof fn law_a_blocker_is_told_by_its_code(
    blocker: AssetMovementBlocker,
    written: Result<String, serde_json::Error>,
    told: CodedError,
)
    requires
        call_ensures(coded_blocker, (&blocker, written), told),
    ensures
        told.code@ == code_told(blocker),
        written is Ok ==> told.message@ == written->Ok_0@,
        written is Err ==> told.message@.len() == 0,
{
}

/// Every failure has a stable code and a message of its own.
pub proof fn law_failures_have_their_code_and_message(
    error: AnchorClientError,
    code: &'static str,
    message: String,
    transport: TransportError,
    transport_message: String,
    resolver: ResolverError,
    resolver_message: String,
)
    requires
        call_ensures(AnchorClientError::code, (&error,), code),
        call_ensures(AnchorClientError::message, (&error,), message),
        call_ensures(TransportError::message, (&transport,), transport_message),
        call_ensures(ResolverError::message, (&resolver,), resolver_message),
    ensures
        stable_code(code@, error),
        client_reads(message@, error),
        transport_reads(transport_message@, transport),
        resolver_reads(resolver_message@, resolver),
{
    lemma_client_reads(error);
    lemma_transport_reads(transport);
    lemma_resolver_reads(resolver);
}

/// Certificate and sharable failures read as they were printed, and a certificate failure keeps its
/// source when it becomes a sharable one.
pub proof fn law_sharable_failures_read_as_printed(
    certificate: KycCertificateError,
    certificate_text: String,
    sharable: SharableAttributesError,
    sharable_text: String,
    routed: SharableAttributesError,
)
    requires
        call_ensures(KycCertificateError::message, (&certificate,), certificate_text),
        call_ensures(SharableAttributesError::message, (&sharable,), sharable_text),
        call_ensures(
            <SharableAttributesError as From<KycCertificateError>>::from,
            (certificate,),
            routed,
        ),
    ensures
        match certificate {
            KycCertificateError::UnsupportedSubjectKey { message, .. } => certificate_text@
                == message@,
            KycCertificateError::Other { message, .. } => certificate_text@ == message@,
        },
        match sharable {
            SharableAttributesError::InvalidPem { message } => sharable_text@ == message@,
            SharableAttributesError::Certificate { message, .. } => sharable_text@ == message@,
            SharableAttributesError::Other { message } => sharable_text@ == message@,
        },
        routed matches SharableAttributesError::Certificate { message, source } && source
            == certificate && match certificate {
            KycCertificateError::UnsupportedSubjectKey { sharable, .. } => message == sharable,
            KycCertificateError::Other { sharable, .. } => message == sharable,
        },
{
}

/// Each source of failure goes into the variant that is named for it, whole.
pub proof fn law_sources_are_kept(
    resilience: ResilienceError,
    account: AccountError,
    node: ClientError,
    transport: TransportError,
    resolver: ResolverError,
    signing: SigningError,
    request: RequestError,
    sharable: SharableAttributesError,
    certificate: KycCertificateError,
    of_transport: TransportError,
    of_resolver: ResolverError,
    of_client: AnchorClientError,
)
    ensures
        call_ensures(<TransportError as From<ResilienceError>>::from, (resilience,), of_transport)
            ==> (of_transport matches TransportError::Resilience { source } && *source
            == resilience),
        call_ensures(<ResolverError as From<AccountError>>::from, (account,), of_resolver)
            ==> of_resolver == (ResolverError::Account { source: account }),
        call_ensures(<ResolverError as From<ClientError>>::from, (node,), of_resolver)
            ==> of_resolver == (ResolverError::Node { source: node }),
        call_ensures(<ResolverError as From<TransportError>>::from, (transport,), of_resolver)
            ==> of_resolver == (ResolverError::Transport { source: transport }),
        call_ensures(<AnchorClientError as From<TransportError>>::from, (transport,), of_client)
            ==> of_client == (AnchorClientError::Transport { source: transport }),
        call_ensures(<AnchorClientError as From<ResolverError>>::from, (resolver,), of_client)
            ==> of_client == (AnchorClientError::Resolver { source: resolver }),
        call_ensures(<AnchorClientError as From<SigningError>>::from, (signing,), of_client)
            ==> of_client == (AnchorClientError::Signing { source: signing }),
        call_ensures(<AnchorClientError as From<RequestError>>::from, (request,), of_client)
            ==> of_client == (AnchorClientError::Request { source: request }),
        call_ensures(
            <AnchorClientError as From<SharableAttributesError>>::from,
            (sharable,),
            of_client,
        ) ==> of_client == (AnchorClientError::Sharable { source: sharable }),
        call_ensures(
            <AnchorClientError as From<KycCertificateError>>::from,
            (certificate,),
            of_client,
        ) ==> (of_client matches AnchorClientError::Sharable {
            source: SharableAttributesError::Certificate { source, .. },
        } && source == certificate),
{
}

/// Each printed source goes into the variant that is named for it, as it was printed.
pub proof fn law_printed_sources_are_kept(
    http: reqwest::Error,
    decoding: base64::DecodeError,
    reading: serde_json::Error,
    parsing: url::ParseError,
    of_transport: TransportError,
    of_resolver: ResolverError,
    of_client: AnchorClientError,
)
    ensures
        call_ensures(<TransportError as From<reqwest::Error>>::from, (http,), of_transport) ==> (
        of_transport matches TransportError::Request { reason }
            && vstd::string::to_string_from_display_ensures::<reqwest::Error>(&http, reason)),
        call_ensures(<ResolverError as From<base64::DecodeError>>::from, (decoding,), of_resolver)
            ==> (of_resolver matches ResolverError::Base64 { reason }
            && vstd::string::to_string_from_display_ensures::<base64::DecodeError>(
            &decoding,
            reason,
        )),
        call_ensures(<ResolverError as From<serde_json::Error>>::from, (reading,), of_resolver)
            ==> (of_resolver matches ResolverError::Json { reason }
            && vstd::string::to_string_from_display_ensures::<serde_json::Error>(
            &reading,
            reason,
        )),
        call_ensures(<AnchorClientError as From<serde_json::Error>>::from, (reading,), of_client)
            ==> (of_client matches AnchorClientError::Body { reason }
            && vstd::string::to_string_from_display_ensures::<serde_json::Error>(
            &reading,
            reason,
        )),
        call_ensures(<AnchorClientError as From<url::ParseError>>::from, (parsing,), of_client)
            ==> (of_client matches AnchorClientError::Url { reason }
            && vstd::string::to_string_from_display_ensures::<url::ParseError>(&parsing, reason)),
{
}

/// A coded error says what it is made of, and every wrong argument is an invalid input.
pub proof fn law_coded_errors_say_what_they_are_made_of(
    code: &str,
    message: &str,
    made: CodedError,
    wrong: CodedError,
    buffer: CodedError,
    reason: serde_json::Error,
    unread: CodedError,
)
    requires
        call_ensures(CodedError::new, (code, message), made),
        call_ensures(invalid, (message,), wrong),
        call_ensures(unreadable, (), buffer),
        call_ensures(invalid_input, (reason,), unread),
    ensures
        made.code@ == code@ && made.message@ == message@,
        wrong.code@ == "INVALID_INPUT"@ && wrong.message@ == message@,
        buffer.code@ == "INVALID_INPUT"@ && buffer.message@ == "unreadable argument buffer"@,
        refused(unread, reason),
{
}

/// What was read or written is handed through, and what was not is told with its reason.
pub proof fn law_results_are_handed_through<T>(
    argument: T,
    payload: Vec<u8>,
    reason: serde_json::Error,
    parsed: Result<T, CodedError>,
    bytes: Result<Vec<u8>, CodedError>,
)
    ensures
        call_ensures(parse::<T>, (Ok(argument),), parsed) ==> parsed == Ok::<T, CodedError>(
            argument,
        ),
        call_ensures(parse::<T>, (Err(reason),), parsed) ==> parsed is Err && refused(
            parsed->Err_0,
            reason,
        ),
        call_ensures(encoded, (Ok(payload),), bytes) ==> bytes == Ok::<Vec<u8>, CodedError>(
            payload,
        ),
        call_ensures(encoded, (Err(reason),), bytes) ==> bytes is Err && unwritten(
            bytes->Err_0,
            reason,
        ),
        call_ensures(one_answer, (Some(Ok(payload)),), bytes) ==> bytes == Ok::<
            Vec<u8>,
            CodedError,
        >(payload),
        call_ensures(one_answer, (Some(Err(reason)),), bytes) ==> bytes is Err && unwritten(
            bytes->Err_0,
            reason,
        ),
{
}

/// Whether `bytes` are the two of `{}`.
pub open spec fn acknowledges(bytes: Seq<u8>) -> bool {
    bytes.len() == 2 && bytes[0] == '{' as u8 && bytes[1] == '}' as u8
}

/// Documents are always written, an acknowledgement as `{}` and an absent provider as `null`.
pub proof fn law_documents_are_always_written(
    document: Json,
    bytes: Result<Vec<u8>, CodedError>,
    ack: Result<Vec<u8>, CodedError>,
    absent: Result<Vec<u8>, CodedError>,
    none: Result<Vec<u8>, CodedError>,
)
    requires
        call_ensures(encode, (document,), bytes),
        call_ensures(encode_ack, (), ack),
        call_ensures(encode_absent, (), absent),
        call_ensures(one_answer, (None,), none),
    ensures
        bytes is Ok && bytes->Ok_0@ == written_bytes(document@),
        ack is Ok && acknowledges(ack->Ok_0@),
        absent is Ok && absent->Ok_0@ == seq!['n' as u8, 'u' as u8, 'l' as u8, 'l' as u8],
        none is Ok && none->Ok_0@ == absent->Ok_0@,
{
    assert(absent->Ok_0@ =~= seq!['n' as u8, 'u' as u8, 'l' as u8, 'l' as u8]);
}

/// An account status is answered with JSON that tells it whole; a failure on the way is told as any
/// other.
pub proof fn law_a_status_is_answered_whole(
    status: AccountStatus,
    failure: AnchorClientError,
    missing: CodedError,
    bytes: Result<Vec<u8>, CodedError>,
    answer: Result<Vec<u8>, CodedError>,
)
    ensures
        call_ensures(encode_account_status, (&status,), bytes) ==> bytes is Ok && exists|
            said: Map<Seq<char>, JsonView>,
        | #[trigger]
            status_told(said, status) && bytes->Ok_0@ == written_bytes(JsonView::Object(said)),
        call_ensures(account_status, (Ok(Ok(status)),), answer) ==> answer is Ok && exists|
            said: Map<Seq<char>, JsonView>,
        | #[trigger]
            status_told(said, status) && answer->Ok_0@ == written_bytes(JsonView::Object(said)),
        call_ensures(account_status, (Ok(Err(failure)),), answer) ==> answer is Err && coded_as(
            answer->Err_0,
            failure,
        ),
        call_ensures(account_status, (Err(missing),), answer) ==> answer == Err::<
            Vec<u8>,
            CodedError,
        >(missing),
{
    lemma_status_is_told(status);
    let said = crate::blocker::status_document(status)->Object_0;
    assert(status_told(said, status));
    if answer is Err {
        lemma_codes_tell(answer->Err_0, failure);
    }
}

} // verus!
