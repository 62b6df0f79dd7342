use vstd::prelude::*;

use crate::blocker::{AssetMovementBlocker, BlockerView};
use crate::source::{
    sharable_message, sharable_of, AccountError, ClientError, KycCertificateError, RequestError,
    ResilienceError, SharableAttributesError, SigningError,
};
use crate::text::{decimal, digits, join};

verus! {

/// Whether `text` is what printing `failure` gives.
pub open spec fn printed<T: core::fmt::Display + ?Sized>(failure: &T, text: String) -> bool {
    vstd::string::to_string_from_display_ensures::<T>(failure, text)
}

/// A failure reaching an anchor over HTTP.
#[derive(Debug)]
pub enum TransportError {
    /// The request could not be sent or no response was received.
    Request {
        /// The underlying client message.
        reason: String,
    },
    /// The target URL was not a valid absolute HTTP(S) URL.
    InvalidUrl {
        /// The underlying URL-parsing message.
        reason: String,
    },
    /// A resilience policy shed the request or spent its retry budget.
    Resilience {
        /// The underlying resilience failure.
        source: Box<ResilienceError>,
    },
}

/// A failure decoding service metadata or resolving a provider.
#[derive(Debug)]
pub enum ResolverError {
    /// The metadata blob was not valid base64.
    Base64 {
        /// The underlying decoder message.
        reason: String,
    },
    /// The decoded metadata bytes were not valid UTF-8 JSON text.
    Utf8,
    /// The metadata JSON was malformed or did not match the expected shape.
    Json {
        /// The underlying JSON message.
        reason: String,
    },
    /// A required metadata field was missing or malformed.
    Field {
        /// The offending field name.
        field: &'static str,
    },
    /// A metadata reference used a scheme this resolver cannot read.
    UnsupportedScheme {
        /// The offending scheme.
        scheme: String,
    },
    /// A metadata location could not be read.
    NotFound {
        /// The location that was requested.
        location: String,
    },
    /// No root account yielded a valid (version 1) metadata document.
    NoRootMetadata,
    /// A reference did not name a valid `keeta_...` account.
    Account {
        /// The underlying account-parsing failure.
        source: AccountError,
    },
    /// Fetching metadata from the source failed at the transport layer.
    Transport {
        /// The underlying transport failure.
        source: TransportError,
    },
    /// Reading on-chain state through the node client failed.
    Node {
        /// The underlying node-client failure.
        source: ClientError,
    },
}

/// The unified error surface for the anchor client.
#[derive(Debug)]
pub enum AnchorClientError {
    /// A transport-layer failure.
    Transport {
        /// The underlying transport failure.
        source: TransportError,
    },
    /// A resolver-layer failure.
    Resolver {
        /// The underlying resolver failure.
        source: ResolverError,
    },
    /// An operation endpoint template did not yield a valid absolute URL.
    Url {
        /// The underlying URL-parsing message.
        reason: String,
    },
    /// Producing the request signature failed.
    Signing {
        /// The underlying signing failure.
        source: SigningError,
    },
    /// Attaching the signature to the request URL failed.
    Request {
        /// The underlying URL-signing failure.
        source: RequestError,
    },
    /// The anchor returned a response body that did not match the operation.
    Body {
        /// The underlying decoder message.
        reason: String,
    },
    /// The anchor rejected the request or reported a service-level failure.
    Service {
        /// The HTTP status the anchor returned.
        status: u16,
    },
    /// An asset-movement operation reported a typed blocker the caller must resolve (share KYC,
    /// complete onboarding, and so on).
    Blocker {
        /// The blocker parsed from the anchor error envelope.
        blocker: AssetMovementBlocker,
    },
    /// The resolved provider does not advertise a required operation.
    UnsupportedOperation {
        /// The operation name that was missing.
        operation: &'static str,
    },
    /// A polled operation did not complete within its deadline.
    Timeout {
        /// The operation that was awaited.
        operation: &'static str,
        /// The deadline that elapsed, in milliseconds.
        timeout_ms: u32,
    },
    /// A referenced external blob could not be fetched.
    ReferenceFetch {
        /// The reference URL that was requested.
        url: String,
        /// The HTTP status the server returned (`0` for a malformed `data:` URL or container
        /// payload).
        status: u16,
    },
    /// A sharable-attributes operation failed in the core.
    Sharable {
        /// The underlying sharable-attributes failure.
        source: SharableAttributesError,
    },
}

/// The message of a transport failure.
pub open spec fn transport_message(error: TransportError) -> Seq<char> {
    match error {
        TransportError::Request { reason } => "transport request failed: "@ + reason@,
        TransportError::InvalidUrl { reason } => "invalid request URL: "@ + reason@,
        TransportError::Resilience { source } => source.message@,
    }
}

/// The message of a resolver failure.
pub open spec fn resolver_message(error: ResolverError) -> Seq<char> {
    match error {
        ResolverError::Base64 { reason } => "metadata base64 is invalid: "@ + reason@,
        ResolverError::Utf8 => "metadata is not valid UTF-8"@,
        ResolverError::Json { reason } => "metadata JSON is invalid: "@ + reason@,
        ResolverError::Field { field } => "metadata field `"@ + field@
            + "` is missing or malformed"@,
        ResolverError::UnsupportedScheme { scheme } => "unsupported metadata reference scheme: "@
            + scheme@,
        ResolverError::NotFound { location } => "metadata location not found: "@ + location@,
        ResolverError::NoRootMetadata => "no valid root metadata found"@,
        ResolverError::Account { source } => "invalid account reference: "@ + source.message@,
        ResolverError::Transport { source } => "metadata fetch failed: "@ + transport_message(
            source,
        ),
        ResolverError::Node { source } => "node read failed: "@ + source.message@,
    }
}

/// The message of an anchor client failure.
pub open spec fn client_message(error: AnchorClientError) -> Seq<char> {
    match error {
        AnchorClientError::Transport { source } => transport_message(source),
        AnchorClientError::Resolver { source } => resolver_message(source),
        AnchorClientError::Url { reason } => "invalid operation URL: "@ + reason@,
        AnchorClientError::Signing { source } => "request signing failed: "@ + source.message@,
        AnchorClientError::Request { source } => "request URL signing failed: "@ + source.message@,
        AnchorClientError::Body { reason } => "anchor response body is invalid: "@ + reason@,
        AnchorClientError::Service { status } => "anchor request failed (status "@ + digits(
            status as nat,
        ) + ")"@,
        AnchorClientError::Blocker { .. } => "asset-movement blocker"@,
        AnchorClientError::UnsupportedOperation { operation } => "provider does not advertise the `"@
            + operation@ + "` operation"@,
        AnchorClientError::Timeout { operation, timeout_ms } => "operation `"@ + operation@
            + "` did not complete within "@ + digits(timeout_ms as nat) + " ms"@,
        AnchorClientError::ReferenceFetch { url, status } => "reference fetch failed for `"@ + url@
            + "` (status "@ + digits(status as nat) + ")"@,
        AnchorClientError::Sharable { source } => sharable_message(source),
    }
}

/// The stable code of an anchor client failure.
pub open spec fn client_code(error: AnchorClientError) -> Seq<char> {
    match error {
        AnchorClientError::Transport { .. } => "TRANSPORT"@,
        AnchorClientError::Resolver { .. } => "RESOLVER"@,
        AnchorClientError::Url { .. } => "INVALID_URL"@,
        AnchorClientError::Signing { .. } => "SIGNING"@,
        AnchorClientError::Request { .. } => "REQUEST"@,
        AnchorClientError::Body { .. } => "INVALID_BODY"@,
        AnchorClientError::Service { .. } => "SERVICE"@,
        AnchorClientError::Blocker { blocker } => match blocker@.transport_code() {
            Some(code) => code,
            None => "SERVICE"@,
        },
        AnchorClientError::UnsupportedOperation { .. } => "UNSUPPORTED_OPERATION"@,
        AnchorClientError::Timeout { .. } => "TIMEOUT"@,
        AnchorClientError::ReferenceFetch { .. } => "REFERENCE_FETCH"@,
        AnchorClientError::Sharable { .. } => "SHARABLE"@,
    }
}

/// `head`, `middle` and `tail`, one after the other.
fn join3(head: &str, middle: &str, tail: &str) -> (text: String)
    ensures
        text@ == head@ + middle@ + tail@,
{
    join(join(head, middle).as_str(), tail)
}

impl TransportError {
    /// The human-readable message.
    pub fn message(&self) -> (text: String)
        ensures
            text@ == transport_message(*self),
    {
        match self {
            Self::Request { reason } => join("transport request failed: ", reason.as_str()),
            Self::InvalidUrl { reason } => join("invalid request URL: ", reason.as_str()),
            Self::Resilience { source } => source.message.clone(),
        }
    }
}

impl ResolverError {
    /// The human-readable message.
    pub fn message(&self) -> (text: String)
        ensures
            text@ == resolver_message(*self),
    {
        match self {
            Self::Base64 { reason } => join("metadata base64 is invalid: ", reason.as_str()),
            Self::Utf8 => "metadata is not valid UTF-8".to_owned(),
            Self::Json { reason } => join("metadata JSON is invalid: ", reason.as_str()),
            Self::Field { field } => join3("metadata field `", field, "` is missing or malformed"),
            Self::UnsupportedScheme { scheme } => join(
                "unsupported metadata reference scheme: ",
                scheme.as_str(),
            ),
            Self::NotFound { location } => join("metadata location not found: ", location.as_str()),
            Self::NoRootMetadata => "no valid root metadata found".to_owned(),
            Self::Account { source } => join("invalid account reference: ", source.message.as_str()),
            Self::Transport { source } => join("metadata fetch failed: ", source.message().as_str()),
            Self::Node { source } => join("node read failed: ", source.message.as_str()),
        }
    }
}

impl AnchorClientError {
    /// The human-readable message.
    pub fn message(&self) -> (text: String)
        ensures
            text@ == client_message(*self),
    {
        match self {
            Self::Transport { source } => source.message(),
            Self::Resolver { source } => source.message(),
            Self::Url { reason } => join("invalid operation URL: ", reason.as_str()),
            Self::Signing { source } => join("request signing failed: ", source.message.as_str()),
            Self::Request { source } => join(
                "request URL signing failed: ",
                source.message.as_str(),
            ),
            Self::Body { reason } => join("anchor response body is invalid: ", reason.as_str()),
            Self::Service { status } => join3(
                "anchor request failed (status ",
                decimal(*status as u32).as_str(),
                ")",
            ),
            Self::Blocker { .. } => "asset-movement blocker".to_owned(),
            Self::UnsupportedOperation { operation } => join3(
                "provider does not advertise the `",
                operation,
                "` operation",
            ),
            Self::Timeout { operation, timeout_ms } => join3(
                join3("operation `", operation, "` did not complete within ").as_str(),
                decimal(*timeout_ms).as_str(),
                " ms",
            ),
            Self::ReferenceFetch { url, status } => join3(
                join3("reference fetch failed for `", url.as_str(), "` (status ").as_str(),
                decimal(*status as u32).as_str(),
                ")",
            ),
            Self::Sharable { source } => source.message(),
        }
    }

    /// The stable, programmatic code of this failure.
    pub fn code(&self) -> (code: &'static str)
        ensures
            code@ == client_code(*self),
    {
        match self {
            Self::Transport { .. } => "TRANSPORT",
            Self::Resolver { .. } => "RESOLVER",
            Self::Url { .. } => "INVALID_URL",
            Self::Signing { .. } => "SIGNING",
            Self::Request { .. } => "REQUEST",
            Self::Body { .. } => "INVALID_BODY",
            Self::Service { .. } => "SERVICE",
            Self::Blocker { blocker } => match blocker.static_transport_code() {
                Some(code) => code,
                None => "SERVICE",
            },
            Self::UnsupportedOperation { .. } => "UNSUPPORTED_OPERATION",
            Self::Timeout { .. } => "TIMEOUT",
            Self::ReferenceFetch { .. } => "REFERENCE_FETCH",
            Self::Sharable { .. } => "SHARABLE",
        }
    }
}

impl From<ResilienceError> for TransportError {
    fn from(error: ResilienceError) -> (converted: Self) {
        Self::Resilience { source: Box::new(error) }
    }
}

impl vstd::std_specs::convert::FromSpecImpl<ResilienceError> for TransportError {
    open spec fn obeys_from_spec() -> bool {
        true
    }

    open spec fn from_spec(error: ResilienceError) -> Self {
        TransportError::Resilience { source: Box::new(error) }
    }
}

impl From<reqwest::Error> for TransportError {
    fn from(error: reqwest::Error) -> (converted: Self)
        ensures
            converted matches TransportError::Request { reason } && printed(&error, reason),
    {
        Self::Request { reason: error.to_string() }
    }
}

impl vstd::std_specs::convert::FromSpecImpl<reqwest::Error> for TransportError {
    open spec fn obeys_from_spec() -> bool {
        false
    }

    open spec fn from_spec(error: reqwest::Error) -> Self {
        arbitrary()
    }
}

impl From<base64::DecodeError> for ResolverError {
    fn from(error: base64::DecodeError) -> (converted: Self)
        ensures
            converted matches ResolverError::Base64 { reason } && printed(&error, reason),
    {
        Self::Base64 { reason: error.to_string() }
    }
}

impl vstd::std_specs::convert::FromSpecImpl<base64::DecodeError> for ResolverError {
    open spec fn obeys_from_spec() -> bool {
        false
    }

    open spec fn from_spec(error: base64::DecodeError) -> Self {
        arbitrary()
    }
}

impl From<serde_json::Error> for ResolverError {
    fn from(error: serde_json::Error) -> (converted: Self)
        ensures
            converted matches ResolverError::Json { reason } && printed(&error, reason),
    {
        Self::Json { reason: error.to_string() }
    }
}

impl vstd::std_specs::convert::FromSpecImpl<serde_json::Error> for ResolverError {
    open spec fn obeys_from_spec() -> bool {
        false
    }

    open spec fn from_spec(error: serde_json::Error) -> Self {
        arbitrary()
    }
}

impl From<AccountError> for ResolverError {
    fn from(error: AccountError) -> (converted: Self) {
        Self::Account { source: error }
    }
}

impl vstd::std_specs::convert::FromSpecImpl<AccountError> for ResolverError {
    open spec fn obeys_from_spec() -> bool {
        true
    }

    open spec fn from_spec(error: AccountError) -> Self {
        ResolverError::Account { source: error }
    }
}

impl From<TransportError> for ResolverError {
    fn from(error: TransportError) -> (converted: Self) {
        Self::Transport { source: error }
    }
}

impl vstd::std_specs::convert::FromSpecImpl<TransportError> for ResolverError {
    open spec fn obeys_from_spec() -> bool {
        true
    }

    open spec fn from_spec(error: TransportError) -> Self {
        ResolverError::Transport { source: error }
    }
}

impl From<ClientError> for ResolverError {
    fn from(error: ClientError) -> (converted: Self) {
        Self::Node { source: error }
    }
}

impl vstd::std_specs::convert::FromSpecImpl<ClientError> for ResolverError {
    open spec fn obeys_from_spec() -> bool {
        true
    }

    open spec fn from_spec(error: ClientError) -> Self {
        ResolverError::Node { source: error }
    }
}

impl From<TransportError> for AnchorClientError {
    fn from(error: TransportError) -> (converted: Self) {
        Self::Transport { source: error }
    }
}

impl vstd::std_specs::convert::FromSpecImpl<TransportError> for AnchorClientError {
    open spec fn obeys_from_spec() -> bool {
        true
    }

    open spec fn from_spec(error: TransportError) -> Self {
        AnchorClientError::Transport { source: error }
    }
}

impl From<ResolverError> for AnchorClientError {
    fn from(error: ResolverError) -> (converted: Self) {
        Self::Resolver { source: error }
    }
}

impl vstd::std_specs::convert::FromSpecImpl<ResolverError> for AnchorClientError {
    open spec fn obeys_from_spec() -> bool {
        true
    }

    open spec fn from_spec(error: ResolverError) -> Self {
        AnchorClientError::Resolver { source: error }
    }
}

impl From<SigningError> for AnchorClientError {
    fn from(error: SigningError) -> (converted: Self) {
        Self::Signing { source: error }
    }
}

impl vstd::std_specs::convert::FromSpecImpl<SigningError> for AnchorClientError {
    open spec fn obeys_from_spec() -> bool {
        true
    }

    open spec fn from_spec(error: SigningError) -> Self {
        AnchorClientError::Signing { source: error }
    }
}

impl From<RequestError> for AnchorClientError {
    fn from(error: RequestError) -> (converted: Self) {
        Self::Request { source: error }
    }
}

impl vstd::std_specs::convert::FromSpecImpl<RequestError> for AnchorClientError {
    open spec fn obeys_from_spec() -> bool {
        true
    }

    open spec fn from_spec(error: RequestError) -> Self {
        AnchorClientError::Request { source: error }
    }
}

impl From<SharableAttributesError> for AnchorClientError {
    fn from(error: SharableAttributesError) -> (converted: Self) {
        Self::Sharable { source: error }
    }
}

impl vstd::std_specs::convert::FromSpecImpl<SharableAttributesError> for AnchorClientError {
    open spec fn obeys_from_spec() -> bool {
        true
    }

    open spec fn from_spec(error: SharableAttributesError) -> Self {
        AnchorClientError::Sharable { source: error }
    }
}

impl From<KycCertificateError> for AnchorClientError {
    fn from(error: KycCertificateError) -> (converted: Self) {
        Self::Sharable { source: SharableAttributesError::from(error) }
    }
}

impl vstd::std_specs::convert::FromSpecImpl<KycCertificateError> for AnchorClientError {
    open spec fn obeys_from_spec() -> bool {
        true
    }

    open spec fn from_spec(error: KycCertificateError) -> Self {
        AnchorClientError::Sharable { source: sharable_of(error) }
    }
}

impl From<serde_json::Error> for AnchorClientError {
    fn from(error: serde_json::Error) -> (converted: Self)
        ensures
            converted matches AnchorClientError::Body { reason } && printed(&error, reason),
    {
        Self::Body { reason: error.to_string() }
    }
}

impl vstd::std_specs::convert::FromSpecImpl<serde_json::Error> for AnchorClientError {
    open spec fn obeys_from_spec() -> bool {
        false
    }

    open spec fn from_spec(error: serde_json::Error) -> Self {
        arbitrary()
    }
}

impl From<url::ParseError> for AnchorClientError {
    fn from(error: url::ParseError) -> (converted: Self)
        ensures
            converted matches AnchorClientError::Url { reason } && printed(&error, reason),
    {
        Self::Url { reason: error.to_string() }
    }
}

impl vstd::std_specs::convert::FromSpecImpl<url::ParseError> for AnchorClientError {
    open spec fn obeys_from_spec() -> bool {
        false
    }

    open spec fn from_spec(error: url::ParseError) -> Self {
        arbitrary()
    }
}

/// The kind of an anchor client failure: its variant, with each known blocker a kind of its own and
/// unknown ones among the service failures.
pub open spec fn kind_of(error: AnchorClientError) -> int {
    match error {
        AnchorClientError::Transport { .. } => 0,
        AnchorClientError::Resolver { .. } => 1,
        AnchorClientError::Url { .. } => 2,
        AnchorClientError::Signing { .. } => 3,
        AnchorClientError::Request { .. } => 4,
        AnchorClientError::Body { .. } => 5,
        AnchorClientError::Service { .. } => 6,
        AnchorClientError::UnsupportedOperation { .. } => 7,
        AnchorClientError::Timeout { .. } => 8,
        AnchorClientError::ReferenceFetch { .. } => 9,
        AnchorClientError::Sharable { .. } => 10,
        AnchorClientError::Blocker { blocker } => match blocker@ {
            BlockerView::KycShareNeeded { .. } => 11,
            BlockerView::AdditionalKycNeeded { .. } => 12,
            BlockerView::OperationNotSupported { .. } => 13,
            BlockerView::UserActionNeeded { .. } => 14,
            BlockerView::Other { .. } => 6,
        },
    }
}

/// Two failures have one code exactly when they are of one kind.
pub proof fn law_codes_tell_kinds_apart(left: AnchorClientError, right: AnchorClientError)
    ensures
        client_code(left) == client_code(right) <==> kind_of(left) == kind_of(right),
{
    reveal_strlit("TRANSPORT");
    assert("TRANSPORT"@.len() == 9);
    reveal_strlit("RESOLVER");
    assert("RESOLVER"@.len() == 8);
    reveal_strlit("INVALID_URL");
    assert("INVALID_URL"@.len() == 11);
    reveal_strlit("SIGNING");
    assert("SIGNING"@.len() == 7);
    reveal_strlit("REQUEST");
    assert("REQUEST"@.len() == 7);
    reveal_strlit("INVALID_BODY");
    assert("INVALID_BODY"@.len() == 12);
    reveal_strlit("SERVICE");
    assert("SERVICE"@.len() == 7);
    reveal_strlit("UNSUPPORTED_OPERATION");
    assert("UNSUPPORTED_OPERATION"@.len() == 21);
    reveal_strlit("TIMEOUT");
    assert("TIMEOUT"@.len() == 7);
    reveal_strlit("REFERENCE_FETCH");
    assert("REFERENCE_FETCH"@.len() == 15);
    reveal_strlit("SHARABLE");
    assert("SHARABLE"@.len() == 8);
    reveal_strlit("KEETA_ANCHOR_ASSET_MOVEMENT_KYC_SHARE_NEEDED");
    assert("KEETA_ANCHOR_ASSET_MOVEMENT_KYC_SHARE_NEEDED"@.len() == 44);
    reveal_strlit("KEETA_ANCHOR_ASSET_MOVEMENT_ADDITIONAL_KYC_NEEDED");
    assert("KEETA_ANCHOR_ASSET_MOVEMENT_ADDITIONAL_KYC_NEEDED"@.len() == 49);
    reveal_strlit("KEETA_ANCHOR_ASSET_MOVEMENT_OPERATION_NOT_SUPPORTED");
    assert("KEETA_ANCHOR_ASSET_MOVEMENT_OPERATION_NOT_SUPPORTED"@.len() == 51);
    reveal_strlit("KEETA_ANCHOR_ASSET_MOVEMENT_USER_ACTION_NEEDED");
    assert("KEETA_ANCHOR_ASSET_MOVEMENT_USER_ACTION_NEEDED"@.len() == 46);
    assert("RESOLVER"@[0] == 'R' && "SHARABLE"@[0] == 'S');
    assert("SIGNING"@[1] == 'I' && "REQUEST"@[0] == 'R');
    assert("SIGNING"@[0] == 'S' && "SERVICE"@[0] == 'S' && "SERVICE"@[1] == 'E');
    assert("TIMEOUT"@[0] == 'T');
}

} // verus!
