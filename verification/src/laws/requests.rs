use vstd::prelude::*;

use crate::coded::CodedError;
use crate::json::{Json, JsonView};
use crate::laws::failures::refused;
use crate::request::{
    asset_or_pair, create_address_request, create_template_request, execute_request,
    initiate_template_request, list_addresses_request, list_templates_request,
    list_transactions_request, parse_provider_search, share_kyc_attributes_request,
    transfer_request, value_string, AddressFilterDto, AssetOrPair, CreateAddressDto, CreatePersistentForwardingAddressRequest,
    CreatePersistentForwardingTemplateRequest, CreateTemplateDto, EndpointFilterDto, ExecuteReqDto,
    ExecuteTransferRequest, ForwardingAddressFilter, ForwardingDestination,
    InitiatePersistentForwardingTemplateRequest, InitiateTemplateDto, ListAddressesDto,
    ListForwardingAddressTemplatesRequest, ListForwardingAddressesRequest, ListTemplatesDto,
    ListTransactionsDto, ListTransactionsRequest, Pagination, PaginationDto,
    PersistentAddressFilter, PersistentAddressFilterDto, ProviderSearch, ProviderSearchDto,
    ShareKycDto, ShareKycRequest, TransactionEndpointFilter, TransactionRefDto,
    TransactionRefFilter, TransferReqDto, TransferRequest,
};

verus! {

/// Whether the object `document` has the string `text` under `name`.
pub open spec fn has_text(document: JsonView, name: Seq<char>, text: Seq<char>) -> bool {
    &&& document is Object
    &&& document->Object_0.contains_key(name)
    &&& document->Object_0[name] == JsonView::String(text)
}

/// Whether `document` names `asset`: the one asset as a string, or the asset to give under `from` and
/// the asset to get under `to`.
pub open spec fn named(asset: AssetOrPair, document: JsonView) -> bool {
    match asset {
        AssetOrPair::Single(text) => document == JsonView::String(text@),
        AssetOrPair::Pair { from, to } => has_text(document, "from"@, from@) && has_text(
            document,
            "to"@,
            to@,
        ),
    }
}

/// Whether `document` names an asset, one or a pair.
pub open spec fn nameable(document: JsonView) -> bool {
    ||| document is String
    ||| exists|from: Seq<char>, to: Seq<char>| #[trigger]
        has_text(document, "from"@, from) && #[trigger] has_text(document, "to"@, to)
}

/// Whether `error` tells that `document` names no asset.
pub open spec fn unnamed(error: CodedError, document: JsonView) -> bool {
    &&& !nameable(document)
    &&& error.code@ == "INVALID_INPUT"@
    &&& document is Object ==> error.message@ == "missing required string field"@
    &&& !(document is Object) ==> error.message@
        == "asset must be a string or a { from, to } pair"@
}

/// Whether `value` is the amount `document`: its own text, or the number as printed.
pub open spec fn amounts_to(value: String, document: JsonView) -> bool {
    match document {
        JsonView::String(text) => value@ == text,
        JsonView::Number(
            number,
        ) => vstd::string::to_string_from_display_ensures::<serde_json::Number>(&number, value),
        _ => false,
    }
}

/// Whether `error` tells that `document` is no amount.
pub open spec fn no_amount(error: CodedError, document: JsonView) -> bool {
    &&& !(document is String) && !(document is Number)
    &&& error.code@ == "INVALID_INPUT"@
    &&& error.message@ == "value must be a string or a number"@
}

/// An asset is what the document names, and a document that names none is told why.
pub proof fn law_an_asset_is_what_the_document_names(
    document: Json,
    asset: Result<AssetOrPair, CodedError>,
)
    requires
        call_ensures(asset_or_pair, (document,), asset),
    ensures
        asset is Ok ==> named(asset->Ok_0, document@),
        asset is Err ==> unnamed(asset->Err_0, document@),
{
    lemma_asset(document@, asset);
}

proof fn lemma_asset(document: JsonView, asset: Result<AssetOrPair, CodedError>)
    requires
        crate::request::names_asset(document, asset),
    ensures
        asset is Ok ==> named(asset->Ok_0, document),
        asset is Err ==> unnamed(asset->Err_0, document),
{
}

/// An amount is carried as it is written, and what is no amount is told so.
pub proof fn law_an_amount_is_carried_as_it_is_written(
    document: Json,
    value: Result<String, CodedError>,
)
    requires
        call_ensures(value_string, (document,), value),
    ensures
        value is Ok ==> amounts_to(value->Ok_0, document@),
        value is Err ==> no_amount(value->Err_0, document@),
{
}

/// Whether `request` is the transfer that `dto` describes, from where it says to where it says.
pub open spec fn is_transfer(request: TransferRequest, dto: TransferReqDto) -> bool {
    &&& named(request.asset, dto.asset@)
    &&& amounts_to(request.value, dto.value@)
    &&& request.from.location == dto.from.location
    &&& request.from.source == dto.from.source
    &&& request.to.location == dto.to.location
    &&& request.to.recipient == dto.to.recipient
    &&& request.to.deposit_message == dto.to.deposit_message
    &&& request.allowed_rails == dto.allowed_rails
}

/// Whether `error` tells what is wrong with `dto`, its asset before its amount.
pub open spec fn no_transfer(error: CodedError, dto: TransferReqDto) -> bool {
    ||| unnamed(error, dto.asset@)
    ||| nameable(dto.asset@) && no_amount(error, dto.value@)
}

/// A document names an asset exactly when one can be read from it.
pub proof fn lemma_nameable(document: JsonView)
    ensures
        nameable(document) <==> crate::request::asset_of(document) is Ok,
{
    if let Ok(crate::request::AssetView::Pair { from, to }) = crate::request::asset_of(document) {
        assert(has_text(document, "from"@, from) && has_text(document, "to"@, to));
    }
}

/// What a transfer document gives is the transfer it describes, or what is wrong with it.
pub proof fn lemma_transfer(dto: TransferReqDto, request: Result<TransferRequest, CodedError>)
    requires
        dto.gives(request),
    ensures
        request is Ok ==> is_transfer(request->Ok_0, dto),
        request is Err ==> no_transfer(request->Err_0, dto),
{
    lemma_nameable(dto.asset@);
}

/// A transfer goes the way its document says, with everything the document carries.
pub proof fn law_a_transfer_goes_the_way_its_document_says(
    dto: TransferReqDto,
    converted: Result<TransferRequest, CodedError>,
    request: Result<TransferRequest, CodedError>,
)
    requires
        call_ensures(TransferReqDto::into_core, (dto,), converted),
        call_ensures(transfer_request, (Ok(dto),), request),
    ensures
        converted is Ok ==> is_transfer(converted->Ok_0, dto),
        converted is Err ==> no_transfer(converted->Err_0, dto),
        request is Ok ==> is_transfer(request->Ok_0, dto),
        request is Err ==> no_transfer(request->Err_0, dto),
{
    lemma_transfer(dto, converted);
    lemma_transfer(dto, request);
}

/// Whether `search` asks for what `dto` describes.
pub open spec fn is_search(search: ProviderSearch, dto: ProviderSearchDto) -> bool {
    &&& search.asset is Some <==> dto.asset is Some
    &&& search.asset is Some ==> named(search.asset->0, dto.asset->0@)
    &&& search.from == dto.from
    &&& search.to == dto.to
    &&& search.inbound_rails == dto.inbound_rails
    &&& search.outbound_rails == dto.outbound_rails
}

/// A search asks for what its document describes, and fails only where the asset it gives is none.
pub proof fn law_a_search_asks_for_what_its_document_says(
    dto: ProviderSearchDto,
    converted: Result<ProviderSearch, CodedError>,
    search: Result<ProviderSearch, CodedError>,
)
    requires
        call_ensures(ProviderSearchDto::into_core, (dto,), converted),
        call_ensures(parse_provider_search, (Ok(dto),), search),
    ensures
        converted is Ok ==> is_search(converted->Ok_0, dto),
        converted is Err ==> dto.asset is Some && unnamed(converted->Err_0, dto.asset->0@),
        search is Ok ==> is_search(search->Ok_0, dto),
        search is Err ==> dto.asset is Some && unnamed(search->Err_0, dto.asset->0@),
{
    if let Some(asset) = dto.asset {
        lemma_nameable(asset@);
    }
}

/// An execution carries its id and its instruction.
pub proof fn law_an_execution_carries_its_document(
    dto: ExecuteReqDto,
    converted: ExecuteTransferRequest,
    request: Result<ExecuteTransferRequest, CodedError>,
)
    requires
        call_ensures(ExecuteReqDto::into_core, (dto,), converted),
        call_ensures(execute_request, (Ok(dto),), request),
    ensures
        converted.id == dto.id && converted.instruction == dto.instruction,
        request is Ok && request->Ok_0.id == dto.id && request->Ok_0.instruction
            == dto.instruction,
{
}

/// Whether `request` opens the template session that `dto` describes.
pub open spec fn is_session(
    request: InitiatePersistentForwardingTemplateRequest,
    dto: InitiateTemplateDto,
) -> bool {
    named(request.asset, dto.asset@) && request.location == dto.location
}

/// A template session is opened for the asset and the location of its document.
pub proof fn law_a_session_is_opened_as_its_document_says(
    dto: InitiateTemplateDto,
    converted: Result<InitiatePersistentForwardingTemplateRequest, CodedError>,
    request: Result<InitiatePersistentForwardingTemplateRequest, CodedError>,
)
    requires
        call_ensures(InitiateTemplateDto::into_core, (dto,), converted),
        call_ensures(initiate_template_request, (Ok(dto),), request),
    ensures
        converted is Ok ==> is_session(converted->Ok_0, dto),
        converted is Err ==> unnamed(converted->Err_0, dto.asset@),
        request is Ok ==> is_session(request->Ok_0, dto),
        request is Err ==> unnamed(request->Err_0, dto.asset@),
{
    lemma_nameable(dto.asset@);
}

/// Whether `request` makes the template that `dto` describes: it completes a session where there is
/// session data, and makes a template outright where there is none.
pub open spec fn is_template(
    request: CreatePersistentForwardingTemplateRequest,
    dto: CreateTemplateDto,
) -> bool {
    match request {
        CreatePersistentForwardingTemplateRequest::Completion { id, data } => dto.data == Some(data)
            && id == dto.id,
        CreatePersistentForwardingTemplateRequest::Direct {
            asset,
            location,
            address,
        } => dto.data is None && dto.asset is Some && named(asset, dto.asset->0@) && dto.location
            == Some(location) && dto.address == Some(address),
    }
}

/// Whether `error` tells why `dto` makes no template.
pub open spec fn no_template(error: CodedError, dto: CreateTemplateDto) -> bool {
    &&& dto.data is None
    &&& if dto.asset is Some && dto.location is Some && dto.address is Some {
        unnamed(error, dto.asset->0@)
    } else {
        error.code@ == "INVALID_INPUT"@ && error.message@
            == "a direct template requires asset, location, and address"@
    }
}

/// What a template document gives is the template it describes, or what it lacks.
pub proof fn lemma_template(
    dto: CreateTemplateDto,
    request: Result<CreatePersistentForwardingTemplateRequest, CodedError>,
)
    requires
        dto.gives(request),
    ensures
        request is Ok ==> is_template(request->Ok_0, dto),
        request is Err ==> no_template(request->Err_0, dto),
{
    if let Some(asset) = dto.asset {
        lemma_nameable(asset@);
    }
}

/// A template is made as its document says.
pub proof fn law_a_template_is_made_as_its_document_says(
    dto: CreateTemplateDto,
    converted: Result<CreatePersistentForwardingTemplateRequest, CodedError>,
    request: Result<CreatePersistentForwardingTemplateRequest, CodedError>,
)
    requires
        call_ensures(CreateTemplateDto::into_core, (dto,), converted),
        call_ensures(create_template_request, (Ok(dto),), request),
    ensures
        converted is Ok ==> is_template(converted->Ok_0, dto),
        converted is Err ==> no_template(converted->Err_0, dto),
        request is Ok ==> is_template(request->Ok_0, dto),
        request is Err ==> no_template(request->Err_0, dto),
{
    lemma_template(dto, converted);
    lemma_template(dto, request);
}

/// Templates are listed for the assets and the locations of the document.
pub proof fn law_templates_are_listed_as_the_document_says(
    dto: ListTemplatesDto,
    converted: ListForwardingAddressTemplatesRequest,
    request: Result<ListForwardingAddressTemplatesRequest, CodedError>,
)
    requires
        call_ensures(ListTemplatesDto::into_core, (dto,), converted),
        call_ensures(list_templates_request, (Ok(dto),), request),
    ensures
        converted.asset == dto.asset && converted.location == dto.location,
        request is Ok && request->Ok_0.asset == dto.asset && request->Ok_0.location
            == dto.location,
{
}

/// Whether `request` makes the forwarding address that `dto` describes, to the address it gives in
/// full, else to its template.
pub open spec fn is_address(
    request: CreatePersistentForwardingAddressRequest,
    dto: CreateAddressDto,
) -> bool {
    &&& named(request.asset, dto.asset@)
    &&& request.source_location == dto.source_location
    &&& request.outgoing_rail == dto.outgoing_rail
    &&& request.incoming_rail == dto.incoming_rail
    &&& match request.destination {
        ForwardingDestination::Address { location, address } => dto.destination_location == Some(
            location,
        ) && dto.destination_address == Some(address),
        ForwardingDestination::Template { persistent_address_template_id } => (
        dto.destination_location is None || dto.destination_address is None)
            && dto.persistent_address_template_id == Some(persistent_address_template_id),
    }
}

/// Whether `error` tells why `dto` makes no forwarding address, its destination before its asset.
pub open spec fn no_address(error: CodedError, dto: CreateAddressDto) -> bool {
    let nowhere = (dto.destination_location is None || dto.destination_address is None)
        && dto.persistent_address_template_id is None;
    if nowhere {
        error.code@ == "INVALID_INPUT"@ && error.message@
            == "a forwarding address requires either a destination address or a template id"@
    } else {
        unnamed(error, dto.asset@)
    }
}

/// What an address document gives is the address it describes, or what is wrong with it.
pub proof fn lemma_address(
    dto: CreateAddressDto,
    request: Result<CreatePersistentForwardingAddressRequest, CodedError>,
)
    requires
        dto.gives(request),
    ensures
        request is Ok ==> is_address(request->Ok_0, dto),
        request is Err ==> no_address(request->Err_0, dto),
{
    lemma_nameable(dto.asset@);
}

/// A forwarding address is made as its document says.
pub proof fn law_an_address_is_made_as_its_document_says(
    dto: CreateAddressDto,
    converted: Result<CreatePersistentForwardingAddressRequest, CodedError>,
    request: Result<CreatePersistentForwardingAddressRequest, CodedError>,
)
    requires
        call_ensures(CreateAddressDto::into_core, (dto,), converted),
        call_ensures(create_address_request, (Ok(dto),), request),
    ensures
        converted is Ok ==> is_address(converted->Ok_0, dto),
        converted is Err ==> no_address(converted->Err_0, dto),
        request is Ok ==> is_address(request->Ok_0, dto),
        request is Err ==> no_address(request->Err_0, dto),
{
    lemma_address(dto, converted);
    lemma_address(dto, request);
}

/// Whether a page is the one that its document describes.
pub open spec fn same_page(page: Pagination, dto: PaginationDto) -> bool {
    page.limit == dto.limit && page.offset == dto.offset
}

/// Whether an address filter has every field of its document.
pub open spec fn same_address_filter(
    filter: ForwardingAddressFilter,
    dto: AddressFilterDto,
) -> bool {
    &&& filter.source_location == dto.source_location
    &&& filter.destination_location == dto.destination_location
    &&& filter.asset == dto.asset
    &&& filter.destination_address == dto.destination_address
    &&& filter.persistent_address_template_id == dto.persistent_address_template_id
}

/// Whether a persistent-address filter has every field of its document.
pub open spec fn same_persistent_filter(
    filter: PersistentAddressFilter,
    dto: PersistentAddressFilterDto,
) -> bool {
    &&& filter.location == dto.location
    &&& filter.persistent_address == dto.persistent_address
    &&& filter.persistent_address_template == dto.persistent_address_template
}

/// Whether an endpoint filter has every field of its document.
pub open spec fn same_endpoint_filter(
    filter: TransactionEndpointFilter,
    dto: EndpointFilterDto,
) -> bool {
    &&& filter.location == dto.location
    &&& filter.user_address == dto.user_address
    &&& filter.asset == dto.asset
}

/// Whether a transaction filter has every field of its document.
pub open spec fn same_transaction_filter(
    filter: TransactionRefFilter,
    dto: TransactionRefDto,
) -> bool {
    filter.location == dto.location && filter.transaction == dto.transaction
}

/// A filter or a page has every field of its document, unchanged.
pub proof fn law_filters_have_every_field(
    page_dto: PaginationDto,
    page: Pagination,
    first_page: PaginationDto,
    address_dto: AddressFilterDto,
    address: ForwardingAddressFilter,
    persistent_dto: PersistentAddressFilterDto,
    persistent: PersistentAddressFilter,
    endpoint_dto: EndpointFilterDto,
    endpoint: TransactionEndpointFilter,
    transaction_dto: TransactionRefDto,
    transaction: TransactionRefFilter,
)
    requires
        call_ensures(<Pagination as From<PaginationDto>>::from, (page_dto,), page),
        call_ensures(<PaginationDto as Default>::default, (), first_page),
        call_ensures(
            <ForwardingAddressFilter as From<AddressFilterDto>>::from,
            (address_dto,),
            address,
        ),
        call_ensures(
            <PersistentAddressFilter as From<PersistentAddressFilterDto>>::from,
            (persistent_dto,),
            persistent,
        ),
        call_ensures(
            <TransactionEndpointFilter as From<EndpointFilterDto>>::from,
            (endpoint_dto,),
            endpoint,
        ),
        call_ensures(
            <TransactionRefFilter as From<TransactionRefDto>>::from,
            (transaction_dto,),
            transaction,
        ),
    ensures
        same_page(page, page_dto),
        first_page.limit is None && first_page.offset is None,
        same_address_filter(address, address_dto),
        same_persistent_filter(persistent, persistent_dto),
        same_endpoint_filter(endpoint, endpoint_dto),
        same_transaction_filter(transaction, transaction_dto),
{
}

/// Whether `request` lists the addresses that `dto` describes: its filters one for one, and its page.
pub open spec fn is_address_listing(
    request: ListForwardingAddressesRequest,
    dto: ListAddressesDto,
) -> bool {
    &&& same_page(request.pagination, dto.pagination)
    &&& request.search is Some <==> dto.search is Some
    &&& request.search is Some ==> request.search->0@.len() == dto.search->0@.len() && forall|
        i: int,
    |
        0 <= i < request.search->0@.len() ==> same_address_filter(
            #[trigger] request.search->0@[i],
            dto.search->0@[i],
        )
}

/// Addresses are listed as the document says.
pub proof fn law_addresses_are_listed_as_the_document_says(
    dto: ListAddressesDto,
    converted: Result<ListForwardingAddressesRequest, CodedError>,
    request: Result<ListForwardingAddressesRequest, CodedError>,
)
    requires
        call_ensures(ListAddressesDto::into_core, (dto,), converted),
        call_ensures(list_addresses_request, (Ok(dto),), request),
    ensures
        converted is Ok && is_address_listing(converted->Ok_0, dto),
        request is Ok && is_address_listing(request->Ok_0, dto),
{
}

/// Whether `request` lists the transactions that `dto` describes: every filter that the document has,
/// with every field, and its page.
pub open spec fn is_transaction_listing(
    request: ListTransactionsRequest,
    dto: ListTransactionsDto,
) -> bool {
    &&& same_page(request.pagination, dto.pagination)
    &&& request.from is Some <==> dto.from is Some
    &&& request.from is Some ==> same_endpoint_filter(request.from->0, dto.from->0)
    &&& request.to is Some <==> dto.to is Some
    &&& request.to is Some ==> same_endpoint_filter(request.to->0, dto.to->0)
    &&& request.persistent_addresses is Some <==> dto.persistent_addresses is Some
    &&& request.persistent_addresses is Some ==> request.persistent_addresses->0@.len()
        == dto.persistent_addresses->0@.len() && forall|i: int|
        0 <= i < request.persistent_addresses->0@.len() ==> same_persistent_filter(
            #[trigger] request.persistent_addresses->0@[i],
            dto.persistent_addresses->0@[i],
        )
    &&& request.transactions is Some <==> dto.transactions is Some
    &&& request.transactions is Some ==> request.transactions->0@.len()
        == dto.transactions->0@.len() && forall|i: int|
        0 <= i < request.transactions->0@.len() ==> same_transaction_filter(
            #[trigger] request.transactions->0@[i],
            dto.transactions->0@[i],
        )
}

/// Transactions are listed as the document says.
pub proof fn law_transactions_are_listed_as_the_document_says(
    dto: ListTransactionsDto,
    converted: Result<ListTransactionsRequest, CodedError>,
    request: Result<ListTransactionsRequest, CodedError>,
)
    requires
        call_ensures(ListTransactionsDto::into_core, (dto,), converted),
        call_ensures(list_transactions_request, (Ok(dto),), request),
    ensures
        converted is Ok && is_transaction_listing(converted->Ok_0, dto),
        request is Ok && is_transaction_listing(request->Ok_0, dto),
{
}

/// What is shared, and the terms agreed to, are those of the document.
pub proof fn law_what_is_shared_is_what_the_document_says(
    dto: ShareKycDto,
    converted: ShareKycRequest,
    request: Result<ShareKycRequest, CodedError>,
)
    requires
        call_ensures(ShareKycDto::into_core, (dto,), converted),
        call_ensures(share_kyc_attributes_request, (Ok(dto),), request),
    ensures
        converted.attributes == dto.attributes && converted.tos_agreement == dto.tos_agreement,
        request is Ok && request->Ok_0.attributes == dto.attributes && request->Ok_0.tos_agreement
            == dto.tos_agreement,
{
}

/// Whatever the request, an argument that is not its document is refused with the reader's reason.
pub proof fn law_unreadable_requests_are_refused(
    reason: serde_json::Error,
    transfer: Result<TransferRequest, CodedError>,
    execution: Result<ExecuteTransferRequest, CodedError>,
    session: Result<InitiatePersistentForwardingTemplateRequest, CodedError>,
    template: Result<CreatePersistentForwardingTemplateRequest, CodedError>,
    templates: Result<ListForwardingAddressTemplatesRequest, CodedError>,
    address: Result<CreatePersistentForwardingAddressRequest, CodedError>,
    addresses: Result<ListForwardingAddressesRequest, CodedError>,
    transactions: Result<ListTransactionsRequest, CodedError>,
    sharing: Result<ShareKycRequest, CodedError>,
    search: Result<ProviderSearch, CodedError>,
)
    requires
        call_ensures(transfer_request, (Err(reason),), transfer),
        call_ensures(execute_request, (Err(reason),), execution),
        call_ensures(initiate_template_request, (Err(reason),), session),
        call_ensures(create_template_request, (Err(reason),), template),
        call_ensures(list_templates_request, (Err(reason),), templates),
        call_ensures(create_address_request, (Err(reason),), address),
        call_ensures(list_addresses_request, (Err(reason),), addresses),
        call_ensures(list_transactions_request, (Err(reason),), transactions),
        call_ensures(share_kyc_attributes_request, (Err(reason),), sharing),
        call_ensures(parse_provider_search, (Err(reason),), search),
    ensures
        transfer is Err && refused(transfer->Err_0, reason),
        execution is Err && refused(execution->Err_0, reason),
        session is Err && refused(session->Err_0, reason),
        template is Err && refused(template->Err_0, reason),
        templates is Err && refused(templates->Err_0, reason),
        address is Err && refused(address->Err_0, reason),
        addresses is Err && refused(addresses->Err_0, reason),
        transactions is Err && refused(transactions->Err_0, reason),
        sharing is Err && refused(sharing->Err_0, reason),
        search is Err && refused(search->Err_0, reason),
{
}

} // verus!
