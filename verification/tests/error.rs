use keetanetwork_anchor_client::blocker::{AssetMovementBlocker, USER_ACTION_NEEDED};
use keetanetwork_anchor_client::error::{AnchorClientError, ResolverError, TransportError};
use keetanetwork_anchor_client::source::{
    AccountError, ClientError, KycCertificateError, RequestError, ResilienceError,
    SharableAttributesError, SigningError,
};

fn unreadable() -> serde_json::Error {
    serde_json::from_slice::<serde_json::Value>(b"{").unwrap_err()
}

#[test]
fn a_reference_fetch_failure_reports_its_code() {
    let error = AnchorClientError::ReferenceFetch {
        url: "https://example.test/blob".to_string(),
        status: 404,
    };
    assert_eq!(error.code(), "REFERENCE_FETCH");
}

#[test]
fn a_sharable_failure_reports_its_code() {
    let error = AnchorClientError::from(SharableAttributesError::InvalidPem {
        message: "invalid PEM".to_string(),
    });
    assert_eq!(error.code(), "SHARABLE");
}

#[test]
fn a_certificate_error_routes_through_sharable() {
    let error = AnchorClientError::from(KycCertificateError::UnsupportedSubjectKey {
        message: "unsupported subject key".to_string(),
        sharable: "certificate: unsupported subject key".to_string(),
    });
    assert!(matches!(
        error,
        AnchorClientError::Sharable { source: SharableAttributesError::Certificate { .. } }
    ));
}

#[test]
fn each_failure_has_its_code_and_message() {
    let cases = vec![
        (
            AnchorClientError::from(TransportError::Request { reason: "gone".to_string() }),
            "TRANSPORT",
            "transport request failed: gone",
        ),
        (AnchorClientError::from(ResolverError::Utf8), "RESOLVER", "metadata is not valid UTF-8"),
        (
            AnchorClientError::Url { reason: "bad".to_string() },
            "INVALID_URL",
            "invalid operation URL: bad",
        ),
        (
            AnchorClientError::from(SigningError { message: "no key".to_string() }),
            "SIGNING",
            "request signing failed: no key",
        ),
        (
            AnchorClientError::from(RequestError { message: "no host".to_string() }),
            "REQUEST",
            "request URL signing failed: no host",
        ),
        (
            AnchorClientError::Body { reason: "odd".to_string() },
            "INVALID_BODY",
            "anchor response body is invalid: odd",
        ),
        (
            AnchorClientError::Service { status: 503 },
            "SERVICE",
            "anchor request failed (status 503)",
        ),
        (
            AnchorClientError::Blocker {
                blocker: AssetMovementBlocker::UserActionNeeded { actions_needed: Vec::new() },
            },
            USER_ACTION_NEEDED,
            "asset-movement blocker",
        ),
        (
            AnchorClientError::Blocker {
                blocker: AssetMovementBlocker::Other {
                    name: String::new(),
                    code: Some("X".to_string()),
                    message: String::new(),
                },
            },
            "SERVICE",
            "asset-movement blocker",
        ),
        (
            AnchorClientError::UnsupportedOperation { operation: "simulateTransfer" },
            "UNSUPPORTED_OPERATION",
            "provider does not advertise the `simulateTransfer` operation",
        ),
        (
            AnchorClientError::Timeout { operation: "shareKYC", timeout_ms: 4_294_967_295 },
            "TIMEOUT",
            "operation `shareKYC` did not complete within 4294967295 ms",
        ),
        (
            AnchorClientError::ReferenceFetch { url: "data:,".to_string(), status: 0 },
            "REFERENCE_FETCH",
            "reference fetch failed for `data:,` (status 0)",
        ),
        (
            AnchorClientError::from(KycCertificateError::Other {
                message: "expired".to_string(),
                sharable: "certificate failed: expired".to_string(),
            }),
            "SHARABLE",
            "certificate failed: expired",
        ),
    ];
    for (error, code, message) in cases {
        assert_eq!(error.code(), code);
        assert_eq!(error.message(), message);
    }
}

#[test]
fn each_transport_failure_has_its_message() {
    assert_eq!(
        TransportError::InvalidUrl { reason: "no scheme".to_string() }.message(),
        "invalid request URL: no scheme"
    );
    let shed = TransportError::from(ResilienceError { message: "circuit open".to_string() });
    assert!(matches!(shed, TransportError::Resilience { .. }));
    assert_eq!(shed.message(), "circuit open");
}

#[test]
fn each_resolver_failure_has_its_message() {
    let cases = vec![
        (
            ResolverError::Base64 { reason: "b".to_string() },
            "metadata base64 is invalid: b",
        ),
        (ResolverError::Json { reason: "j".to_string() }, "metadata JSON is invalid: j"),
        (
            ResolverError::Field { field: "services" },
            "metadata field `services` is missing or malformed",
        ),
        (
            ResolverError::UnsupportedScheme { scheme: "ftp".to_string() },
            "unsupported metadata reference scheme: ftp",
        ),
        (
            ResolverError::NotFound { location: "keeta_x".to_string() },
            "metadata location not found: keeta_x",
        ),
        (ResolverError::NoRootMetadata, "no valid root metadata found"),
        (
            ResolverError::from(AccountError { message: "short".to_string() }),
            "invalid account reference: short",
        ),
        (
            ResolverError::from(TransportError::Request { reason: "gone".to_string() }),
            "metadata fetch failed: transport request failed: gone",
        ),
        (
            ResolverError::from(ClientError { message: "offline".to_string() }),
            "node read failed: offline",
        ),
    ];
    for (error, message) in cases {
        assert_eq!(error.message(), message);
        assert_eq!(AnchorClientError::from(error).message(), message);
    }
}

#[test]
fn json_failures_keep_what_the_reader_said() {
    let reason = unreadable().to_string();
    assert_eq!(
        AnchorClientError::from(unreadable()).message(),
        format!("anchor response body is invalid: {}", reason)
    );
    assert_eq!(
        ResolverError::from(unreadable()).message(),
        format!("metadata JSON is invalid: {}", reason)
    );
}

#[test]
fn a_url_failure_keeps_what_the_parser_said() {
    let error = AnchorClientError::from(url::ParseError::EmptyHost);
    assert_eq!(error.code(), "INVALID_URL");
    assert_eq!(error.message(), format!("invalid operation URL: {}", url::ParseError::EmptyHost));
}

#[test]
fn a_base64_failure_keeps_what_the_decoder_said() {
    let error = ResolverError::from(base64::DecodeError::InvalidPadding);
    assert_eq!(
        error.message(),
        format!("metadata base64 is invalid: {}", base64::DecodeError::InvalidPadding)
    );
}

#[test]
fn each_sharable_failure_has_its_message() {
    let pem = SharableAttributesError::InvalidPem { message: "pem".to_string() };
    assert_eq!(pem.message(), "pem");
    let other = SharableAttributesError::Other { message: "other".to_string() };
    assert_eq!(other.message(), "other");
    let key = KycCertificateError::UnsupportedSubjectKey {
        message: "key".to_string(),
        sharable: "certificate: key".to_string(),
    };
    assert_eq!(key.message(), "key");
    assert_eq!(SharableAttributesError::from(key).message(), "certificate: key");
}
