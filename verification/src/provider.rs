use vstd::prelude::*;

use crate::coded::{parse, rejects_json, CodedError};
use crate::json::Json;
use crate::table::{entries_map, NameTable};
use crate::text::same_text;

verus! {

/// The authentication an operation requires.
#[derive(Debug, Clone, Copy, PartialEq, Eq, Structural)]
pub enum EndpointAuth {
    /// No authentication.
    NoAuth,
    /// Authentication is accepted.
    Optional,
    /// Authentication is demanded.
    Required,
}

/// One operation endpoint that a provider advertises.
#[derive(Debug, PartialEq, Eq)]
pub struct OperationEndpoint {
    /// The endpoint's URL template.
    pub url: String,
    /// The authentication the endpoint requires.
    pub auth: EndpointAuth,
}

/// The operations a provider advertises, by name.
pub type AssetMovementOperations = NameTable<OperationEndpoint>;

/// A discovered asset-movement provider.
#[derive(Debug, PartialEq, Eq)]
pub struct AssetMovementProvider {
    /// The provider's id.
    pub id: String,
    /// The operations it advertises.
    pub operations: AssetMovementOperations,
    /// The assets it publishes support for.
    pub supported_assets: Vec<Json>,
    /// What it publishes about its locations, when it does.
    pub location_metadata: Option<Json>,
    /// The legal terms it publishes, when it does.
    pub legal: Option<Json>,
    /// The account that signed for it, when one did.
    pub account: Option<String>,
}

/// The authentication an operation requires, as a provider document carries it.
#[derive(Debug, Clone, Copy, PartialEq, Eq, Structural)]
pub enum AuthDto {
    /// `none`.
    NoAuth,
    /// `optional`.
    Optional,
    /// `required`.
    Required,
}

/// One advertised operation endpoint, as a provider document carries it.
#[derive(Debug, PartialEq, Eq)]
pub struct EndpointDto {
    /// The endpoint's URL template.
    pub url: String,
    /// The authentication the endpoint requires.
    pub auth: AuthDto,
}

/// A discovered asset-movement provider, as the document that is handed out and taken back.
#[derive(Debug, PartialEq, Eq)]
pub struct ProviderDto {
    /// The provider's id.
    pub id: String,
    /// The operations it advertises, by name.
    pub operations: NameTable<EndpointDto>,
    /// The assets it publishes support for.
    pub supported_assets: Vec<Json>,
    /// What it publishes about its locations, when it does.
    pub location_metadata: Option<Json>,
    /// The legal terms it publishes, when it does.
    pub legal: Option<Json>,
    /// The account that signed for it, when one did.
    pub account: Option<String>,
}

impl From<EndpointAuth> for AuthDto {
    fn from(auth: EndpointAuth) -> (dto: Self) {
        match auth {
            EndpointAuth::NoAuth => Self::NoAuth,
            EndpointAuth::Optional => Self::Optional,
            EndpointAuth::Required => Self::Required,
        }
    }
}

impl vstd::std_specs::convert::FromSpecImpl<EndpointAuth> for AuthDto {
    open spec fn obeys_from_spec() -> bool {
        true
    }

    open spec fn from_spec(auth: EndpointAuth) -> Self {
        auth_out(auth)
    }
}

impl From<AuthDto> for EndpointAuth {
    fn from(dto: AuthDto) -> (auth: Self) {
        match dto {
            AuthDto::NoAuth => Self::NoAuth,
            AuthDto::Optional => Self::Optional,
            AuthDto::Required => Self::Required,
        }
    }
}

impl vstd::std_specs::convert::FromSpecImpl<AuthDto> for EndpointAuth {
    open spec fn obeys_from_spec() -> bool {
        true
    }

    open spec fn from_spec(dto: AuthDto) -> Self {
        auth_in(dto)
    }
}

/// The document's word for an authentication.
pub open spec fn auth_out(auth: EndpointAuth) -> AuthDto {
    match auth {
        EndpointAuth::NoAuth => AuthDto::NoAuth,
        EndpointAuth::Optional => AuthDto::Optional,
        EndpointAuth::Required => AuthDto::Required,
    }
}

/// The authentication that the document's word means.
pub open spec fn auth_in(dto: AuthDto) -> EndpointAuth {
    match dto {
        AuthDto::NoAuth => EndpointAuth::NoAuth,
        AuthDto::Optional => EndpointAuth::Optional,
        AuthDto::Required => EndpointAuth::Required,
    }
}

/// The document's form of an endpoint.
pub open spec fn endpoint_out(endpoint: OperationEndpoint) -> EndpointDto {
    EndpointDto { url: endpoint.url, auth: auth_out(endpoint.auth) }
}

/// The endpoint that the document's form means.
pub open spec fn endpoint_in(dto: EndpointDto) -> OperationEndpoint {
    OperationEndpoint { url: dto.url, auth: auth_in(dto.auth) }
}

/// Whether `dto` is the document of `provider`: the same everywhere, with each operation in the
/// document's form.
pub open spec fn documents(dto: ProviderDto, provider: AssetMovementProvider) -> bool {
    &&& dto.id == provider.id
    &&& dto.operations@ == provider.operations@.map_values(|e: OperationEndpoint| endpoint_out(e))
    &&& dto.supported_assets == provider.supported_assets
    &&& dto.location_metadata == provider.location_metadata
    &&& dto.legal == provider.legal
    &&& dto.account == provider.account
}

/// Whether `provider` is what the document `dto` means.
pub open spec fn means(dto: ProviderDto, provider: AssetMovementProvider) -> bool {
    &&& provider.id == dto.id
    &&& provider.operations@ == dto.operations@.map_values(|e: EndpointDto| endpoint_in(e))
    &&& provider.supported_assets == dto.supported_assets
    &&& provider.location_metadata == dto.location_metadata
    &&& provider.legal == dto.legal
    &&& provider.account == dto.account
}

impl From<AssetMovementProvider> for ProviderDto {
    fn from(provider: AssetMovementProvider) -> (dto: Self)
        ensures
            documents(dto, provider),
    {
        let entries = provider.operations.into_entries();
        let ghost all = entries@;
        let ghost form = |e: OperationEndpoint| endpoint_out(e);
        let mut operations: NameTable<EndpointDto> = NameTable::new();
        assert(all.take(0) =~= Seq::empty());
        assert(operations@ =~= entries_map(all.take(0)).map_values(form));
        for entry in it: entries
            invariant
                it.seq() == all,
                form == (|e: OperationEndpoint| endpoint_out(e)),
                operations@ == entries_map(all.take(it.index())).map_values(form),
        {
            let ghost sofar = entries_map(all.take(it.index()));
            assert(all.take(it.index() + 1).drop_last() =~= all.take(it.index()));
            let (name, endpoint) = entry;
            operations = operations.insert(
                name,
                EndpointDto { url: endpoint.url, auth: AuthDto::from(endpoint.auth) },
            );
            assert(sofar.insert(name@, endpoint).map_values(form) =~= sofar.map_values(form).insert(
                name@,
                endpoint_out(endpoint),
            ));
        }
        assert(all.take(all.len() as int) =~= all);
        ProviderDto {
            id: provider.id,
            operations,
            supported_assets: provider.supported_assets,
            location_metadata: provider.location_metadata,
            legal: provider.legal,
            account: provider.account,
        }
    }
}

impl vstd::std_specs::convert::FromSpecImpl<AssetMovementProvider> for ProviderDto {
    open spec fn obeys_from_spec() -> bool {
        false
    }

    open spec fn from_spec(provider: AssetMovementProvider) -> Self {
        arbitrary()
    }
}

impl From<ProviderDto> for AssetMovementProvider {
    fn from(dto: ProviderDto) -> (provider: Self)
        ensures
            means(dto, provider),
    {
        let entries = dto.operations.into_entries();
        let ghost all = entries@;
        let ghost form = |e: EndpointDto| endpoint_in(e);
        let mut operations: AssetMovementOperations = NameTable::new();
        assert(all.take(0) =~= Seq::empty());
        assert(operations@ =~= entries_map(all.take(0)).map_values(form));
        for entry in it: entries
            invariant
                it.seq() == all,
                form == (|e: EndpointDto| endpoint_in(e)),
                operations@ == entries_map(all.take(it.index())).map_values(form),
        {
            let ghost sofar = entries_map(all.take(it.index()));
            assert(all.take(it.index() + 1).drop_last() =~= all.take(it.index()));
            let (name, endpoint) = entry;
            operations = operations.insert(
                name,
                OperationEndpoint { url: endpoint.url, auth: EndpointAuth::from(endpoint.auth) },
            );
            assert(sofar.insert(name@, endpoint).map_values(form) =~= sofar.map_values(form).insert(
                name@,
                endpoint_in(endpoint),
            ));
        }
        assert(all.take(all.len() as int) =~= all);
        AssetMovementProvider {
            id: dto.id,
            operations,
            supported_assets: dto.supported_assets,
            location_metadata: dto.location_metadata,
            legal: dto.legal,
            account: dto.account,
        }
    }
}

impl vstd::std_specs::convert::FromSpecImpl<ProviderDto> for AssetMovementProvider {
    open spec fn obeys_from_spec() -> bool {
        false
    }

    open spec fn from_spec(dto: ProviderDto) -> Self {
        arbitrary()
    }
}

/// The provider that a document means, where `read` is the argument read as one.
pub fn parse_provider(read: Result<ProviderDto, serde_json::Error>) -> (provider: Result<
    AssetMovementProvider,
    CodedError,
>)
    ensures
        match read {
            Ok(dto) => provider matches Ok(provider) && means(dto, provider),
            Err(reason) => provider matches Err(error) && rejects_json(error, reason),
        },
{
    match parse(read) {
        Ok(dto) => Ok(AssetMovementProvider::from(dto)),
        Err(error) => Err(error),
    }
}

/// The documents of discovered providers, in order.
pub fn encode_providers(providers: Vec<AssetMovementProvider>) -> (payload: Vec<ProviderDto>)
    ensures
        payload@.len() == providers@.len(),
        forall|i: int| 0 <= i < payload@.len() ==> documents(#[trigger] payload@[i], providers@[i]),
{
    let ghost all = providers@;
    let mut payload: Vec<ProviderDto> = Vec::new();
    for provider in it: providers
        invariant
            it.seq() == all,
            payload@.len() == it.index(),
            forall|i: int| 0 <= i < payload@.len() ==> documents(#[trigger] payload@[i], all[i]),
    {
        payload.push(ProviderDto::from(provider));
    }
    payload
}

/// The document of a provider, or [`None`] for an absent one.
pub fn encode_provider(provider: Option<AssetMovementProvider>) -> (payload: Option<ProviderDto>)
    ensures
        match provider {
            Some(provider) => payload matches Some(dto) && documents(dto, provider),
            None => payload is None,
        },
{
    match provider {
        Some(provider) => Some(ProviderDto::from(provider)),
        None => None,
    }
}

/// Which providers a caller wants.
#[derive(Debug, PartialEq, Eq)]
pub struct ProviderFilter {
    /// Only the provider with this id.
    pub id: Option<String>,
    /// Only providers signed by this account.
    pub account: Option<String>,
}

impl Default for ProviderFilter {
    fn default() -> (filter: Self)
        ensures
            filter.id is None,
            filter.account is None,
    {
        Self { id: None, account: None }
    }
}

impl ProviderFilter {
    /// The filter for the provider with `id`.
    pub fn by_id(id: String) -> (filter: Self)
        ensures
            filter == (ProviderFilter { id: Some(id), account: None }),
    {
        Self { id: Some(id), account: None }
    }

    /// The filter for providers signed by `account`.
    pub fn by_account(account: String) -> (filter: Self)
        ensures
            filter == (ProviderFilter { id: None, account: Some(account) }),
    {
        Self { id: None, account: Some(account) }
    }
}

/// Whether `provider` passes `filter`.
pub open spec fn passes(filter: ProviderFilter, provider: AssetMovementProvider) -> bool {
    &&& filter.id matches Some(id) ==> provider.id@ == id@
    &&& filter.account matches Some(account) ==> (provider.account matches Some(signer) && signer@
        == account@)
}

/// Whether `provider` passes `filter` (id and account narrowing).
pub fn accepts(filter: &ProviderFilter, provider: &AssetMovementProvider) -> (accepted: bool)
    ensures
        accepted == passes(*filter, *provider),
{
    let id_ok = match &filter.id {
        Some(id) => same_text(id.as_str(), provider.id.as_str()),
        None => true,
    };
    let account_ok = match &filter.account {
        Some(account) => match &provider.account {
            Some(signer) => same_text(signer.as_str(), account.as_str()),
            None => false,
        },
        None => true,
    };
    id_ok && account_ok
}

/// Those of `providers` that pass `filter`, in order.
pub open spec fn passing(
    providers: Seq<AssetMovementProvider>,
    filter: ProviderFilter,
) -> Seq<AssetMovementProvider> {
    providers.filter(|provider: AssetMovementProvider| passes(filter, provider))
}

/// Narrows discovered `providers` to those passing `filter` (id and account).
pub fn filter_providers(
    providers: Vec<AssetMovementProvider>,
    filter: &ProviderFilter,
) -> (kept: Vec<AssetMovementProvider>)
    ensures
        kept@ == passing(providers@, *filter),
{
    let ghost all = providers@;
    let mut kept: Vec<AssetMovementProvider> = Vec::new();
    proof {
        reveal(Seq::filter);
        assert(all.take(0) =~= Seq::empty());
    }
    for provider in it: providers
        invariant
            it.seq() == all,
            kept@ == passing(all.take(it.index()), *filter),
    {
        proof {
            reveal(Seq::filter);
            assert(all.take(it.index() + 1).drop_last() =~= all.take(it.index()));
        }
        if accepts(filter, &provider) {
            kept.push(provider);
        }
    }
    assert(all.take(all.len() as int) =~= all);
    kept
}

/// A provider survives being handed out as a document and taken back.
pub proof fn law_provider_survives_its_document(
    provider: AssetMovementProvider,
    dto: ProviderDto,
    back: AssetMovementProvider,
)
    requires
        documents(dto, provider),
        means(dto, back),
    ensures
        back.id == provider.id,
        back.operations@ == provider.operations@,
        back.supported_assets == provider.supported_assets,
        back.location_metadata == provider.location_metadata,
        back.legal == provider.legal,
        back.account == provider.account,
{
    assert(back.operations@ =~= provider.operations@);
}

/// A document survives being taken in and handed out again.
pub proof fn law_document_survives_its_provider(
    dto: ProviderDto,
    provider: AssetMovementProvider,
    back: ProviderDto,
)
    requires
        means(dto, provider),
        documents(back, provider),
    ensures
        back.id == dto.id,
        back.operations@ == dto.operations@,
        back.supported_assets == dto.supported_assets,
        back.location_metadata == dto.location_metadata,
        back.legal == dto.legal,
        back.account == dto.account,
{
    assert(back.operations@ =~= dto.operations@);
}

/// Filtering keeps exactly the passing providers: every kept one was there and passes, and every
/// passing one is kept.
pub proof fn law_filter_keeps_exactly_the_passing(
    providers: Seq<AssetMovementProvider>,
    filter: ProviderFilter,
    provider: AssetMovementProvider,
)
    ensures
        passing(providers, filter).contains(provider) <==> providers.contains(provider) && passes(
            filter,
            provider,
        ),
    decreases providers.len(),
{
    reveal(Seq::filter);
    if providers.len() > 0 {
        let rest = providers.drop_last();
        let last = providers.last();
        law_filter_keeps_exactly_the_passing(rest, filter, provider);
        assert(providers =~= rest.push(last));
        broadcast use vstd::seq_lib::group_seq_properties;
    }
}

/// Filtering twice is filtering once.
pub proof fn law_filter_is_idempotent(
    providers: Seq<AssetMovementProvider>,
    filter: ProviderFilter,
)
    ensures
        passing(passing(providers, filter), filter) == passing(providers, filter),
    decreases providers.len(),
{
    reveal(Seq::filter);
    if providers.len() > 0 {
        let rest = providers.drop_last();
        law_filter_is_idempotent(rest, filter);
        if passes(filter, providers.last()) {
            assert(passing(rest, filter).push(providers.last()).drop_last() =~= passing(
                rest,
                filter,
            ));
        }
    }
}

/// The filter that asks for nothing keeps every provider.
pub proof fn law_empty_filter_keeps_all(
    providers: Seq<AssetMovementProvider>,
    filter: ProviderFilter,
)
    requires
        filter.id is None,
        filter.account is None,
    ensures
        passing(providers, filter) == providers,
    decreases providers.len(),
{
    reveal(Seq::filter);
    if providers.len() > 0 {
        law_empty_filter_keeps_all(providers.drop_last(), filter);
        assert(providers.drop_last().push(providers.last()) =~= providers);
    } else {
        assert(passing(providers, filter) =~= providers);
    }
}

} // verus!
