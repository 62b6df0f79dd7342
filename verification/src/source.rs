use vstd::prelude::*;

verus! {

/// `reqwest::Error`, a failed HTTP exchange.
#[verifier::external_type_specification]
#[verifier::external_body]
pub struct ExReqwestError(reqwest::Error);

/// `base64::DecodeError`, text that is not valid base64.
#[verifier::external_type_specification]
#[verifier::external_body]
pub struct ExDecodeError(base64::DecodeError);

/// `url::ParseError`, text that is not a valid URL.
#[verifier::external_type_specification]
#[verifier::external_body]
pub struct ExParseError(url::ParseError);

/// A resilience policy's failure, kept as its message.
#[derive(Debug, Clone, PartialEq, Eq)]
pub struct ResilienceError {
    /// The printed failure.
    pub message: String,
}

/// A failure to parse an account, kept as its message.
#[derive(Debug, Clone, PartialEq, Eq)]
pub struct AccountError {
    /// The printed failure.
    pub message: String,
}

/// A node client's failure, kept as its message.
#[derive(Debug, Clone, PartialEq, Eq)]
pub struct ClientError {
    /// The printed failure.
    pub message: String,
}

/// A failure to sign a request, kept as its message.
#[derive(Debug, Clone, PartialEq, Eq)]
pub struct SigningError {
    /// The printed failure.
    pub message: String,
}

/// A failure to attach a signature to a request URL, kept as its message.
#[derive(Debug, Clone, PartialEq, Eq)]
pub struct RequestError {
    /// The printed failure.
    pub message: String,
}

/// A failure to read or use a KYC certificate. Besides its own message it keeps how it prints as a
/// failure of a sharable-attributes operation.
#[derive(Debug, Clone, PartialEq, Eq)]
pub enum KycCertificateError {
    /// The certificate's subject key is of a kind that is not supported.
    UnsupportedSubjectKey {
        /// The printed failure.
        message: String,
        /// The printed sharable-attributes failure that this becomes.
        sharable: String,
    },
    /// Any other certificate failure.
    Other {
        /// The printed failure.
        message: String,
        /// The printed sharable-attributes failure that this becomes.
        sharable: String,
    },
}

/// A failure of a sharable-attributes operation.
#[derive(Debug, Clone, PartialEq, Eq)]
pub enum SharableAttributesError {
    /// The attributes are not valid PEM.
    InvalidPem {
        /// The printed failure.
        message: String,
    },
    /// A certificate among the attributes failed.
    Certificate {
        /// The printed failure.
        message: String,
        /// The underlying certificate failure.
        source: KycCertificateError,
    },
    /// Any other sharable-attributes failure.
    Other {
        /// The printed failure.
        message: String,
    },
}

/// The message of a certificate failure.
pub open spec fn certificate_message(error: KycCertificateError) -> Seq<char> {
    match error {
        KycCertificateError::UnsupportedSubjectKey { message, .. } => message@,
        KycCertificateError::Other { message, .. } => message@,
    }
}

/// The sharable-attributes failure that a certificate failure becomes.
pub open spec fn sharable_of(error: KycCertificateError) -> SharableAttributesError {
    SharableAttributesError::Certificate {
        message: match error {
            KycCertificateError::UnsupportedSubjectKey { sharable, .. } => sharable,
            KycCertificateError::Other { sharable, .. } => sharable,
        },
        source: error,
    }
}

/// The message of a sharable-attributes failure.
pub open spec fn sharable_message(error: SharableAttributesError) -> Seq<char> {
    match error {
        SharableAttributesError::InvalidPem { message } => message@,
        SharableAttributesError::Certificate { message, .. } => message@,
        SharableAttributesError::Other { message } => message@,
    }
}

impl KycCertificateError {
    /// The human-readable message.
    pub fn message(&self) -> (text: String)
        ensures
            text@ == certificate_message(*self),
    {
        match self {
            Self::UnsupportedSubjectKey { message, .. } => message.clone(),
            Self::Other { message, .. } => message.clone(),
        }
    }
}

impl SharableAttributesError {
    /// The human-readable message.
    pub fn message(&self) -> (text: String)
        ensures
            text@ == sharable_message(*self),
    {
        match self {
            Self::InvalidPem { message } => message.clone(),
            Self::Certificate { message, .. } => message.clone(),
            Self::Other { message } => message.clone(),
        }
    }
}

impl From<KycCertificateError> for SharableAttributesError {
    fn from(error: KycCertificateError) -> (converted: Self) {
        let message = match &error {
            KycCertificateError::UnsupportedSubjectKey { sharable, .. } => sharable.clone(),
            KycCertificateError::Other { sharable, .. } => sharable.clone(),
        };
        Self::Certificate { message, source: error }
    }
}

impl vstd::std_specs::convert::FromSpecImpl<KycCertificateError> for SharableAttributesError {
    open spec fn obeys_from_spec() -> bool {
        true
    }

    open spec fn from_spec(error: KycCertificateError) -> Self {
        sharable_of(error)
    }
}

} // verus!
