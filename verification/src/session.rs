use vstd::prelude::*;

use crate::blocker::{status_document, AccountStatus};
use crate::coded::{coded, codes, encode_account_status, encodes, CodedError};
use crate::error::AnchorClientError;
use crate::provider::{
    documents, encode_provider, encode_providers, filter_providers, passing,
    AssetMovementProvider, ProviderDto, ProviderFilter,
};

verus! {

/// How long to poll for an answer, and how often.
#[derive(Debug, Clone, Copy, PartialEq, Eq)]
pub struct AwaitOptions {
    /// The pause between two polls, in milliseconds.
    pub interval_ms: u32,
    /// How long to poll, in milliseconds.
    pub timeout_ms: u32,
}

/// `value` where it is positive, else `fallback`.
pub open spec fn positive_or(value: i32, fallback: u32) -> u32 {
    if value > 0 {
        value as u32
    } else {
        fallback
    }
}

/// `value` where it is positive, else `fallback`.
fn override_bound(value: i32, fallback: u32) -> (bound: u32)
    ensures
        bound == positive_or(value, fallback),
{
    if value > 0 {
        value as u32
    } else {
        fallback
    }
}

/// The poll bounds for a share-KYC await: each positive argument overrides its default.
pub fn await_options(
    interval_ms: i32,
    timeout_ms: i32,
    defaults: AwaitOptions,
) -> (options: AwaitOptions)
    ensures
        options == (AwaitOptions {
            interval_ms: positive_or(interval_ms, defaults.interval_ms),
            timeout_ms: positive_or(timeout_ms, defaults.timeout_ms),
        }),
{
    AwaitOptions {
        interval_ms: override_bound(interval_ms, defaults.interval_ms),
        timeout_ms: override_bound(timeout_ms, defaults.timeout_ms),
    }
}

/// What came of a call on a stored client: what the client returned, or the coded error of a handle
/// under which no client is stored.
pub type Reached<T> = Result<Result<T, AnchorClientError>, CodedError>;

/// Whether `outcome` is what a call that `reached` a client, or did not, comes to.
pub open spec fn settles<T>(reached: Reached<T>, outcome: Result<T, CodedError>) -> bool {
    match reached {
        Ok(Ok(value)) => outcome == Ok::<T, CodedError>(value),
        Ok(Err(failure)) => outcome matches Err(error) && codes(error, failure),
        Err(missing) => outcome == Err::<T, CodedError>(missing),
    }
}

/// The outcome of a call on a stored client: a missing handle keeps its error, and a client failure
/// is coded.
pub fn with_session<T>(reached: Reached<T>) -> (outcome: Result<T, CodedError>)
    ensures
        settles(reached, outcome),
{
    match reached {
        Ok(Ok(value)) => Ok(value),
        Ok(Err(failure)) => Err(coded(failure)),
        Err(missing) => Err(missing),
    }
}

/// The discovered providers that match `filter`, where `found` is every provider the client
/// discovers.
pub fn lookup(
    found: Result<Vec<AssetMovementProvider>, AnchorClientError>,
    filter: &ProviderFilter,
) -> (matching: Result<Vec<AssetMovementProvider>, AnchorClientError>)
    ensures
        match found {
            Ok(all) => matching matches Ok(kept) && kept@ == passing(all@, *filter),
            Err(failure) => matching == Err::<Vec<AssetMovementProvider>, AnchorClientError>(
                failure,
            ),
        },
{
    match found {
        Ok(all) => Ok(filter_providers(all, filter)),
        Err(failure) => Err(failure),
    }
}

/// Whether `payload` has the documents of `providers`, in order.
pub open spec fn documents_all(
    payload: Seq<ProviderDto>,
    providers: Seq<AssetMovementProvider>,
) -> bool {
    &&& payload.len() == providers.len()
    &&& forall|i: int| 0 <= i < payload.len() ==> documents(#[trigger] payload[i], providers[i])
}

/// The documents of the providers that match `filter`, where `reached` is what asking a stored
/// client for every provider came to.
pub fn providers(
    reached: Reached<Vec<AssetMovementProvider>>,
    filter: &ProviderFilter,
) -> (payload: Result<Vec<ProviderDto>, CodedError>)
    ensures
        match reached {
            Ok(Ok(all)) => payload matches Ok(payload) && documents_all(
                payload@,
                passing(all@, *filter),
            ),
            Ok(Err(failure)) => payload matches Err(error) && codes(error, failure),
            Err(missing) => payload == Err::<Vec<ProviderDto>, CodedError>(missing),
        },
{
    let reached = match reached {
        Ok(found) => Ok(lookup(found, filter)),
        Err(missing) => Err(missing),
    };
    match with_session(reached) {
        Ok(kept) => Ok(encode_providers(kept)),
        Err(error) => Err(error),
    }
}

/// The documents of the providers that can make a transfer, where `reached` is what asking a stored
/// client for them came to.
pub fn providers_for_transfer(reached: Reached<Vec<AssetMovementProvider>>) -> (payload: Result<
    Vec<ProviderDto>,
    CodedError,
>)
    ensures
        match reached {
            Ok(Ok(found)) => payload matches Ok(payload) && documents_all(payload@, found@),
            Ok(Err(failure)) => payload matches Err(error) && codes(error, failure),
            Err(missing) => payload == Err::<Vec<ProviderDto>, CodedError>(missing),
        },
{
    match with_session(reached) {
        Ok(found) => Ok(encode_providers(found)),
        Err(error) => Err(error),
    }
}

/// The document of the first provider that matches `filter`, or [`None`] when none does, where
/// `reached` is what asking a stored client for every provider came to.
pub fn provider_one(
    reached: Reached<Vec<AssetMovementProvider>>,
    filter: &ProviderFilter,
) -> (payload: Result<Option<ProviderDto>, CodedError>)
    ensures
        match reached {
            Ok(Ok(all)) => payload matches Ok(payload) && (if passing(all@, *filter).len() > 0 {
                payload matches Some(dto) && documents(dto, passing(all@, *filter)[0])
            } else {
                payload is None
            }),
            Ok(Err(failure)) => payload matches Err(error) && codes(error, failure),
            Err(missing) => payload == Err::<Option<ProviderDto>, CodedError>(missing),
        },
{
    let reached = match reached {
        Ok(found) => Ok(lookup(found, filter)),
        Err(missing) => Err(missing),
    };
    match with_session(reached) {
        Ok(mut kept) => {
            let first = if kept.len() > 0 {
                Some(kept.remove(0))
            } else {
                None
            };
            Ok(encode_provider(first))
        },
        Err(error) => Err(error),
    }
}

/// The JSON bytes of an account status, where `reached` is what asking a stored client for it came
/// to.
pub fn account_status(reached: Reached<AccountStatus>) -> (bytes: Result<Vec<u8>, CodedError>)
    ensures
        match reached {
            Ok(Ok(status)) => encodes(status_document(status), bytes),
            Ok(Err(failure)) => bytes matches Err(error) && codes(error, failure),
            Err(missing) => bytes == Err::<Vec<u8>, CodedError>(missing),
        },
{
    match with_session(reached) {
        Ok(status) => encode_account_status(&status),
        Err(error) => Err(error),
    }
}

/// Poll bounds are positive wherever the defaults are.
pub proof fn law_poll_bounds_stay_positive(value: i32, fallback: u32)
    requires
        fallback > 0,
    ensures
        positive_or(value, fallback) > 0,
{
}

} // verus!
