use vstd::prelude::*;

use crate::coded::CodedError;
use crate::error::AnchorClientError;
use crate::laws::failures::{coded_as, refused};
use crate::provider::{
    accepts, encode_provider, encode_providers, filter_providers, parse_provider, passes, passing,
    AssetMovementProvider, AuthDto, EndpointAuth, ProviderDto, ProviderFilter,
};
use crate::session::{
    await_options, lookup, provider_one, providers, providers_for_transfer, with_session,
    AwaitOptions,
};

verus! {

/// A filter by id names the id alone, a filter by account the account alone, and the default filter
/// nothing.
pub proof fn law_filters_name_what_they_are_made_of(
    text: String,
    by_id: ProviderFilter,
    by_account: ProviderFilter,
    nothing: ProviderFilter,
)
    requires
        call_ensures(ProviderFilter::by_id, (text,), by_id),
        call_ensures(ProviderFilter::by_account, (text,), by_account),
        call_ensures(<ProviderFilter as Default>::default, (), nothing),
    ensures
        by_id.id == Some(text) && by_id.account is None,
        by_account.account == Some(text) && by_account.id is None,
        nothing.id is None && nothing.account is None,
{
}

/// Whether `provider` has everything that `filter` names.
pub open spec fn asked_for(filter: ProviderFilter, provider: AssetMovementProvider) -> bool {
    &&& filter.id is Some ==> provider.id@ == filter.id->0@
    &&& filter.account is Some ==> provider.account is Some && provider.account->0@
        == filter.account->0@
}

/// A filter accepts a provider exactly when the provider has everything the filter names. What it
/// does not name does not matter.
pub proof fn law_a_filter_asks_for_what_it_names(
    filter: ProviderFilter,
    provider: AssetMovementProvider,
    accepted: bool,
)
    requires
        call_ensures(accepts, (&filter, &provider), accepted),
    ensures
        accepted <==> asked_for(filter, provider),
{
}

/// A filter for an id accepts a provider by its id alone: two providers with one id are accepted
/// together, whatever else they differ in. So does a filter for an account, by the account alone.
pub proof fn law_a_filter_sees_only_what_it_names(
    text: String,
    by_id: ProviderFilter,
    by_account: ProviderFilter,
    provider: AssetMovementProvider,
    id_accepted: bool,
    account_accepted: bool,
)
    requires
        call_ensures(ProviderFilter::by_id, (text,), by_id),
        call_ensures(ProviderFilter::by_account, (text,), by_account),
        call_ensures(accepts, (&by_id, &provider), id_accepted),
        call_ensures(accepts, (&by_account, &provider), account_accepted),
    ensures
        id_accepted <==> provider.id@ == text@,
        account_accepted <==> provider.account is Some && provider.account->0@ == text@,
{
}

/// Whether `kept` is those of `providers` that `filter` asks for, all of them and in order.
pub open spec fn narrowed(
    kept: Seq<AssetMovementProvider>,
    providers: Seq<AssetMovementProvider>,
    filter: ProviderFilter,
) -> bool {
    kept == providers.filter(|provider: AssetMovementProvider| asked_for(filter, provider))
}

proof fn lemma_passing_narrows(providers: Seq<AssetMovementProvider>, filter: ProviderFilter)
    ensures
        narrowed(passing(providers, filter), providers, filter),
    decreases providers.len(),
{
    reveal(Seq::filter);
    if providers.len() > 0 {
        lemma_passing_narrows(providers.drop_last(), filter);
    }
}

/// Filtering keeps the accepted providers, all of them and in order.
pub proof fn law_filtering_keeps_the_accepted_in_order(
    found: Vec<AssetMovementProvider>,
    filter: ProviderFilter,
    kept: Vec<AssetMovementProvider>,
)
    requires
        call_ensures(filter_providers, (found, &filter), kept),
    ensures
        narrowed(kept@, found@, filter),
{
    lemma_passing_narrows(found@, filter);
}

/// Whether a document and a provider have the same authentication.
pub open spec fn same_auth(dto: AuthDto, auth: EndpointAuth) -> bool {
    &&& dto is NoAuth <==> auth is NoAuth
    &&& dto is Optional <==> auth is Optional
    &&& dto is Required <==> auth is Required
}

/// Whether a document and a provider say the same: every field, and every operation under its name.
pub open spec fn same_provider(dto: ProviderDto, provider: AssetMovementProvider) -> bool {
    &&& dto.id == provider.id
    &&& dto.supported_assets == provider.supported_assets
    &&& dto.location_metadata == provider.location_metadata
    &&& dto.legal == provider.legal
    &&& dto.account == provider.account
    &&& forall|name: Seq<char>| #[trigger]
        dto.operations@.contains_key(name) <==> provider.operations@.contains_key(name)
    &&& forall|name: Seq<char>| #[trigger]
        dto.operations@.contains_key(name) ==> dto.operations@[name].url
            == provider.operations@[name].url && same_auth(
            dto.operations@[name].auth,
            provider.operations@[name].auth,
        )
}

/// Authentication keeps its meaning both ways.
pub proof fn law_authentication_keeps_its_meaning(
    auth: EndpointAuth,
    out: AuthDto,
    dto: AuthDto,
    taken: EndpointAuth,
)
    requires
        call_ensures(<AuthDto as From<EndpointAuth>>::from, (auth,), out),
        call_ensures(<EndpointAuth as From<AuthDto>>::from, (dto,), taken),
    ensures
        same_auth(out, auth),
        same_auth(dto, taken),
{
}

/// A provider and its document say the same, whichever is made of the other.
pub proof fn law_a_document_says_what_its_provider_says(
    provider: AssetMovementProvider,
    out: ProviderDto,
    dto: ProviderDto,
    taken: AssetMovementProvider,
    parsed: Result<AssetMovementProvider, CodedError>,
)
    requires
        call_ensures(<ProviderDto as From<AssetMovementProvider>>::from, (provider,), out),
        call_ensures(<AssetMovementProvider as From<ProviderDto>>::from, (dto,), taken),
        call_ensures(parse_provider, (Ok(dto),), parsed),
    ensures
        same_provider(out, provider),
        same_provider(dto, taken),
        parsed is Ok && same_provider(dto, parsed->Ok_0),
{
}

/// A provider argument that is not one is refused with the reader's reason.
pub proof fn law_an_unreadable_provider_is_refused(
    reason: serde_json::Error,
    parsed: Result<AssetMovementProvider, CodedError>,
)
    requires
        call_ensures(parse_provider, (Err(reason),), parsed),
    ensures
        parsed is Err && refused(parsed->Err_0, reason),
{
}

/// Whether `payload` has the documents of `providers`, one for one.
pub open spec fn same_providers(
    payload: Seq<ProviderDto>,
    providers: Seq<AssetMovementProvider>,
) -> bool {
    &&& payload.len() == providers.len()
    &&& forall|i: int|
        0 <= i < payload.len() ==> same_provider(#[trigger] payload[i], providers[i])
}

/// Providers are encoded one for one, and an absent one is absent.
pub proof fn law_providers_are_encoded_one_for_one(
    found: Vec<AssetMovementProvider>,
    payload: Vec<ProviderDto>,
    one: Option<AssetMovementProvider>,
    document: Option<ProviderDto>,
)
    requires
        call_ensures(encode_providers, (found,), payload),
        call_ensures(encode_provider, (one,), document),
    ensures
        same_providers(payload@, found@),
        document is Some <==> one is Some,
        document is Some ==> same_provider(document->0, one->0),
{
}

/// Discovery that fails is answered with its failure; discovery that succeeds with the documents of
/// the accepted providers, or of all where the client has chosen them.
pub proof fn law_discovery_answers_with_the_accepted(
    all: Vec<AssetMovementProvider>,
    failure: AnchorClientError,
    missing: CodedError,
    filter: ProviderFilter,
    answer: Result<Vec<ProviderDto>, CodedError>,
    chosen: Result<Vec<ProviderDto>, CodedError>,
)
    ensures
        call_ensures(providers, (Ok(Ok(all)), &filter), answer) ==> answer is Ok && exists|
            kept: Seq<AssetMovementProvider>,
        | #[trigger]
            narrowed(kept, all@, filter) && same_providers(answer->Ok_0@, kept),
        call_ensures(providers_for_transfer, (Ok(Ok(all)),), chosen) ==> chosen is Ok
            && same_providers(chosen->Ok_0@, all@),
        call_ensures(providers, (Ok(Err(failure)), &filter), answer) ==> answer is Err && coded_as(
            answer->Err_0,
            failure,
        ),
        call_ensures(providers_for_transfer, (Ok(Err(failure)),), chosen) ==> chosen is Err
            && coded_as(chosen->Err_0, failure),
        call_ensures(providers, (Err(missing), &filter), answer) ==> answer == Err::<
            Vec<ProviderDto>,
            CodedError,
        >(missing),
        call_ensures(providers_for_transfer, (Err(missing),), chosen) ==> chosen == Err::<
            Vec<ProviderDto>,
            CodedError,
        >(missing),
{
    lemma_passing_narrows(all@, filter);
    assert(narrowed(passing(all@, filter), all@, filter));
    if answer is Err {
        crate::laws::failures::lemma_codes_tell(answer->Err_0, failure);
    }
    if chosen is Err {
        crate::laws::failures::lemma_codes_tell(chosen->Err_0, failure);
    }
}

proof fn lemma_first_passing(
    providers: Seq<AssetMovementProvider>,
    filter: ProviderFilter,
    i: int,
)
    requires
        0 <= i < providers.len(),
        passes(filter, providers[i]),
        forall|j: int| 0 <= j < i ==> !passes(filter, #[trigger] providers[j]),
    ensures
        passing(providers, filter).len() > 0,
        passing(providers, filter)[0] == providers[i],
    decreases providers.len(),
{
    reveal(Seq::filter);
    let rest = providers.drop_last();
    if i < rest.len() {
        lemma_first_passing(rest, filter, i);
    } else {
        lemma_none_passing(rest, filter);
    }
}

proof fn lemma_none_passing(providers: Seq<AssetMovementProvider>, filter: ProviderFilter)
    requires
        forall|j: int| 0 <= j < providers.len() ==> !passes(filter, #[trigger] providers[j]),
    ensures
        passing(providers, filter).len() == 0,
    decreases providers.len(),
{
    reveal(Seq::filter);
    if providers.len() > 0 {
        assert(!passes(filter, providers[providers.len() - 1]));
        lemma_none_passing(providers.drop_last(), filter);
    }
}

/// One provider is the first that is asked for, wherever it stands among those that were found, and
/// none exactly when none is asked for.
pub proof fn law_one_provider_is_the_first_asked_for(
    all: Vec<AssetMovementProvider>,
    filter: ProviderFilter,
    answer: Result<Option<ProviderDto>, CodedError>,
)
    requires
        call_ensures(provider_one, (Ok(Ok(all)), &filter), answer),
    ensures
        answer is Ok,
        forall|i: int|
            0 <= i < all@.len() && asked_for(filter, #[trigger] all@[i]) && (forall|j: int|
                0 <= j < i ==> !asked_for(filter, #[trigger] all@[j])) ==> answer->Ok_0 is Some
                && same_provider(answer->Ok_0->0, all@[i]),
        (forall|i: int| 0 <= i < all@.len() ==> !asked_for(filter, #[trigger] all@[i]))
            ==> answer->Ok_0 is None,
{
    assert forall|i: int|
        0 <= i < all@.len() && asked_for(filter, #[trigger] all@[i]) && (forall|j: int|
            0 <= j < i ==> !asked_for(filter, #[trigger] all@[j])) implies answer->Ok_0 is Some
        && same_provider(answer->Ok_0->0, all@[i]) by {
        assert forall|j: int| 0 <= j < i implies !passes(filter, #[trigger] all@[j]) by {
            assert(!asked_for(filter, all@[j]));
        }
        lemma_first_passing(all@, filter, i);
    }
    if forall|i: int| 0 <= i < all@.len() ==> !asked_for(filter, #[trigger] all@[i]) {
        assert forall|j: int| 0 <= j < all@.len() implies !passes(filter, #[trigger] all@[j]) by {
            assert(!asked_for(filter, all@[j]));
        }
        lemma_none_passing(all@, filter);
    }
}

/// One provider fails as discovery fails.
pub proof fn law_one_provider_fails_as_discovery_does(
    failure: AnchorClientError,
    missing: CodedError,
    filter: ProviderFilter,
    answer: Result<Option<ProviderDto>, CodedError>,
)
    ensures
        call_ensures(provider_one, (Ok(Err(failure)), &filter), answer) ==> answer is Err
            && coded_as(answer->Err_0, failure),
        call_ensures(provider_one, (Err(missing), &filter), answer) ==> answer == Err::<
            Option<ProviderDto>,
            CodedError,
        >(missing),
{
    if answer is Err {
        crate::laws::failures::lemma_codes_tell(answer->Err_0, failure);
    }
}

/// A lookup narrows what was found, and keeps the client's failure.
pub proof fn law_a_lookup_narrows_what_was_found(
    all: Vec<AssetMovementProvider>,
    failure: AnchorClientError,
    filter: ProviderFilter,
    matching: Result<Vec<AssetMovementProvider>, AnchorClientError>,
)
    ensures
        call_ensures(lookup, (Ok(all), &filter), matching) ==> matching is Ok && narrowed(
            matching->Ok_0@,
            all@,
            filter,
        ),
        call_ensures(lookup, (Err(failure), &filter), matching) ==> matching == Err::<
            Vec<AssetMovementProvider>,
            AnchorClientError,
        >(failure),
{
    lemma_passing_narrows(all@, filter);
}

/// A session hands the client's value through, codes the client's failure, and keeps the error of a
/// missing handle.
pub proof fn law_a_session_keeps_apart_what_went_wrong<T>(
    value: T,
    failure: AnchorClientError,
    missing: CodedError,
    outcome: Result<T, CodedError>,
)
    ensures
        call_ensures(with_session::<T>, (Ok(Ok(value)),), outcome) ==> outcome == Ok::<
            T,
            CodedError,
        >(value),
        call_ensures(with_session::<T>, (Ok(Err(failure)),), outcome) ==> outcome is Err
            && coded_as(outcome->Err_0, failure),
        call_ensures(with_session::<T>, (Err(missing),), outcome) ==> outcome == Err::<
            T,
            CodedError,
        >(missing),
{
    if outcome is Err {
        crate::laws::failures::lemma_codes_tell(outcome->Err_0, failure);
    }
}

/// Each poll bound is the caller's where it is positive, and its default where it is not.
pub proof fn law_poll_bounds_are_the_callers_or_the_defaults(
    interval_ms: i32,
    timeout_ms: i32,
    defaults: AwaitOptions,
    options: AwaitOptions,
)
    requires
        call_ensures(await_options, (interval_ms, timeout_ms, defaults), options),
    ensures
        interval_ms > 0 ==> options.interval_ms == interval_ms,
        interval_ms <= 0 ==> options.interval_ms == defaults.interval_ms,
        timeout_ms > 0 ==> options.timeout_ms == timeout_ms,
        timeout_ms <= 0 ==> options.timeout_ms == defaults.timeout_ms,
{
}

} // verus!
