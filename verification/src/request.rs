use vstd::prelude::*;

use crate::coded::{invalid, parse, rejects_json, CodedError};
use crate::error::printed;
use crate::json::{member, text_of, Json, JsonView};

verus! {

/// An asset, or a pair of assets to exchange.
#[derive(Debug, PartialEq, Eq)]
pub enum AssetOrPair {
    /// One asset.
    Single(String),
    /// The asset to give and the asset to get.
    Pair {
        /// The asset to give.
        from: String,
        /// The asset to get.
        to: String,
    },
}

/// What an [`AssetOrPair`] names.
pub enum AssetView {
    Single(Seq<char>),
    Pair { from: Seq<char>, to: Seq<char> },
}

impl View for AssetOrPair {
    type V = AssetView;

    open spec fn view(&self) -> AssetView {
        match self {
            AssetOrPair::Single(asset) => AssetView::Single(asset@),
            AssetOrPair::Pair { from, to } => AssetView::Pair { from: from@, to: to@ },
        }
    }
}

/// The asset that `document` names, a bare string or a `{ from, to }` object; else why it names
/// none.
pub open spec fn asset_of(document: JsonView) -> Result<AssetView, Seq<char>> {
    match document {
        JsonView::String(asset) => Ok(AssetView::Single(asset)),
        JsonView::Object(_) => match (
            text_of(member(document, "from"@)),
            text_of(member(document, "to"@)),
        ) {
            (Some(from), Some(to)) => Ok(AssetView::Pair { from, to }),
            _ => Err("missing required string field"@),
        },
        _ => Err("asset must be a string or a { from, to } pair"@),
    }
}

/// Whether `asset` is what reading an asset from `document` gives.
pub open spec fn names_asset(
    document: JsonView,
    asset: Result<AssetOrPair, CodedError>,
) -> bool {
    match asset_of(document) {
        Ok(named) => asset matches Ok(asset) && asset@ == named,
        Err(reason) => asset matches Err(error) && error.says("INVALID_INPUT"@, reason),
    }
}

/// Reads a required string member from a JSON object.
fn str_field(document: &Json, name: &str) -> (text: Result<String, CodedError>)
    ensures
        match text_of(member(document@, name@)) {
            Some(found) => text matches Ok(text) && text@ == found,
            None => text matches Err(error) && error.says(
                "INVALID_INPUT"@,
                "missing required string field"@,
            ),
        },
{
    match document.get(name) {
        Some(found) => match found.as_str() {
            Some(text) => Ok(text.to_owned()),
            None => Err(invalid("missing required string field")),
        },
        None => Err(invalid("missing required string field")),
    }
}

/// Reads a JSON asset: a bare string or `{ from, to }`.
pub fn asset_or_pair(document: Json) -> (asset: Result<AssetOrPair, CodedError>)
    ensures
        names_asset(document@, asset),
{
    match document {
        Json::String(asset) => Ok(AssetOrPair::Single(asset)),
        Json::Object(_) => {
            let from = match str_field(&document, "from") {
                Ok(from) => from,
                Err(error) => return Err(error),
            };
            let to = match str_field(&document, "to") {
                Ok(to) => to,
                Err(error) => return Err(error),
            };
            Ok(AssetOrPair::Pair { from, to })
        },
        _ => Err(invalid("asset must be a string or a { from, to } pair")),
    }
}

/// Whether `text` is the decimal string that the amount `document` is carried as: the string
/// itself, or the number as printed.
pub open spec fn carries_amount(document: JsonView, text: Result<String, CodedError>) -> bool {
    match document {
        JsonView::String(amount) => text matches Ok(text) && text@ == amount,
        JsonView::Number(number) => text matches Ok(text) && printed(&number, text),
        _ => text matches Err(error) && error.says(
            "INVALID_INPUT"@,
            "value must be a string or a number"@,
        ),
    }
}

/// Projects a JSON amount (a string or a number) into the decimal string the transfer carries.
pub fn value_string(document: Json) -> (text: Result<String, CodedError>)
    ensures
        carries_amount(document@, text),
{
    match document {
        Json::String(text) => Ok(text),
        Json::Number(number) => Ok(number.to_string()),
        _ => Err(invalid("value must be a string or a number")),
    }
}

/// A search for providers that can make a transfer.
#[derive(Debug, PartialEq, Eq)]
pub struct ProviderSearch {
    /// The asset to move, when it matters.
    pub asset: Option<AssetOrPair>,
    /// The location to move it from, when it matters.
    pub from: Option<String>,
    /// The location to move it to, when it matters.
    pub to: Option<String>,
    /// The rails that may bring it in.
    pub inbound_rails: Vec<String>,
    /// The rails that may take it out.
    pub outbound_rails: Vec<String>,
}

/// The document of a [`ProviderSearch`].
#[derive(Debug, PartialEq, Eq)]
pub struct ProviderSearchDto {
    /// The asset to move, when it matters.
    pub asset: Option<Json>,
    /// The location to move it from, when it matters.
    pub from: Option<String>,
    /// The location to move it to, when it matters.
    pub to: Option<String>,
    /// The rails that may bring it in.
    pub inbound_rails: Vec<String>,
    /// The rails that may take it out.
    pub outbound_rails: Vec<String>,
}

impl ProviderSearchDto {
    /// Whether `search` is what this document gives.
    pub open spec fn gives(self, search: Result<ProviderSearch, CodedError>) -> bool {
        match self.asset {
            Some(document) => match asset_of(document@) {
                Ok(named) => search matches Ok(search) && (search.asset matches Some(asset)
                    && asset@ == named) && self.carries(search),
                Err(reason) => search matches Err(error) && error.says("INVALID_INPUT"@, reason),
            },
            None => search matches Ok(search) && search.asset is None && self.carries(search),
        }
    }

    /// Whether `search` has what this document carries as it is.
    pub open spec fn carries(self, search: ProviderSearch) -> bool {
        &&& search.from == self.from
        &&& search.to == self.to
        &&& search.inbound_rails == self.inbound_rails
        &&& search.outbound_rails == self.outbound_rails
    }

    /// The search that this document gives.
    pub fn into_core(self) -> (search: Result<ProviderSearch, CodedError>)
        ensures
            self.gives(search),
    {
        let asset = match self.asset {
            Some(document) => match asset_or_pair(document) {
                Ok(asset) => Some(asset),
                Err(error) => return Err(error),
            },
            None => None,
        };
        Ok(
            ProviderSearch {
                asset,
                from: self.from,
                to: self.to,
                inbound_rails: self.inbound_rails,
                outbound_rails: self.outbound_rails,
            },
        )
    }
}

/// Bounds on a page of a listing.
#[derive(Debug, Clone, Copy, PartialEq, Eq)]
pub struct Pagination {
    /// The most entries to list, when bounded.
    pub limit: Option<u32>,
    /// How many entries to skip, when any.
    pub offset: Option<u32>,
}

/// The document of a [`Pagination`].
#[derive(Debug, Clone, Copy, PartialEq, Eq)]
pub struct PaginationDto {
    /// The most entries to list, when bounded.
    pub limit: Option<u32>,
    /// How many entries to skip, when any.
    pub offset: Option<u32>,
}

impl Default for PaginationDto {
    fn default() -> (dto: Self)
        ensures
            dto == (PaginationDto { limit: None, offset: None }),
    {
        PaginationDto { limit: None, offset: None }
    }
}

impl From<PaginationDto> for Pagination {
    fn from(dto: PaginationDto) -> (pagination: Self) {
        Self { limit: dto.limit, offset: dto.offset }
    }
}

impl vstd::std_specs::convert::FromSpecImpl<PaginationDto> for Pagination {
    open spec fn obeys_from_spec() -> bool {
        true
    }

    open spec fn from_spec(dto: PaginationDto) -> Self {
        Pagination { limit: dto.limit, offset: dto.offset }
    }
}

/// The source of a transfer.
#[derive(Debug, PartialEq, Eq)]
pub struct TransferSource {
    /// The location the asset leaves.
    pub location: String,
    /// What is known of the source there.
    pub source: Option<Json>,
}

/// The destination of a transfer.
#[derive(Debug, PartialEq, Eq)]
pub struct TransferDestination {
    /// The location the asset reaches.
    pub location: String,
    /// Who receives it there.
    pub recipient: Option<Json>,
    /// The message the deposit carries.
    pub deposit_message: Option<String>,
}

/// A request to simulate or initiate a transfer.
#[derive(Debug, PartialEq, Eq)]
pub struct TransferRequest {
    /// The asset to move.
    pub asset: AssetOrPair,
    /// Where it leaves.
    pub from: TransferSource,
    /// Where it goes.
    pub to: TransferDestination,
    /// How much of it, in decimal.
    pub value: String,
    /// The rails that may be used.
    pub allowed_rails: Vec<String>,
}

/// The document of a [`TransferSource`].
#[derive(Debug, PartialEq, Eq)]
pub struct SourceDto {
    /// The location the asset leaves.
    pub location: String,
    /// What is known of the source there.
    pub source: Option<Json>,
}

/// The document of a [`TransferDestination`].
#[derive(Debug, PartialEq, Eq)]
pub struct DestinationDto {
    /// The location the asset reaches.
    pub location: String,
    /// Who receives it there.
    pub recipient: Option<Json>,
    /// The message the deposit carries.
    pub deposit_message: Option<String>,
}

/// The document of a [`TransferRequest`].
#[derive(Debug, PartialEq, Eq)]
pub struct TransferReqDto {
    /// The asset to move.
    pub asset: Json,
    /// Where it leaves.
    pub from: SourceDto,
    /// Where it goes.
    pub to: DestinationDto,
    /// How much of it.
    pub value: Json,
    /// The rails that may be used.
    pub allowed_rails: Vec<String>,
}

impl TransferReqDto {
    /// Whether `request` is what this document gives; a bad asset is told before a bad amount.
    pub open spec fn gives(self, request: Result<TransferRequest, CodedError>) -> bool {
        match asset_of(self.asset@) {
            Ok(named) => match request {
                Ok(request) => {
                    &&& request.asset@ == named
                    &&& carries_amount(self.value@, Ok(request.value))
                    &&& self.carries(request)
                },
                Err(error) => carries_amount(self.value@, Err(error)),
            },
            Err(reason) => request matches Err(error) && error.says("INVALID_INPUT"@, reason),
        }
    }

    /// Whether `request` has what this document carries as it is.
    pub open spec fn carries(self, request: TransferRequest) -> bool {
        &&& request.from == (TransferSource {
            location: self.from.location,
            source: self.from.source,
        })
        &&& request.to == (TransferDestination {
            location: self.to.location,
            recipient: self.to.recipient,
            deposit_message: self.to.deposit_message,
        })
        &&& request.allowed_rails == self.allowed_rails
    }

    /// The request that this document gives.
    pub fn into_core(self) -> (request: Result<TransferRequest, CodedError>)
        ensures
            self.gives(request),
    {
        let asset = match asset_or_pair(self.asset) {
            Ok(asset) => asset,
            Err(error) => return Err(error),
        };
        let value = match value_string(self.value) {
            Ok(value) => value,
            Err(error) => return Err(error),
        };
        Ok(
            TransferRequest {
                asset,
                from: TransferSource { location: self.from.location, source: self.from.source },
                to: TransferDestination {
                    location: self.to.location,
                    recipient: self.to.recipient,
                    deposit_message: self.to.deposit_message,
                },
                value,
                allowed_rails: self.allowed_rails,
            },
        )
    }
}

/// A request to execute a pull instruction.
#[derive(Debug, PartialEq, Eq)]
pub struct ExecuteTransferRequest {
    /// The transfer's id.
    pub id: String,
    /// The instruction to execute.
    pub instruction: Json,
}

/// The document of an [`ExecuteTransferRequest`].
#[derive(Debug, PartialEq, Eq)]
pub struct ExecuteReqDto {
    /// The transfer's id.
    pub id: String,
    /// The instruction to execute.
    pub instruction: Json,
}

impl ExecuteReqDto {
    /// The request that this document gives.
    pub fn into_core(self) -> (request: ExecuteTransferRequest)
        ensures
            request == (ExecuteTransferRequest { id: self.id, instruction: self.instruction }),
    {
        ExecuteTransferRequest { id: self.id, instruction: self.instruction }
    }
}

/// A request to open a persistent-forwarding template session.
#[derive(Debug, PartialEq, Eq)]
pub struct InitiatePersistentForwardingTemplateRequest {
    /// The asset to forward.
    pub asset: AssetOrPair,
    /// The location to forward it to.
    pub location: String,
}

/// The document of an [`InitiatePersistentForwardingTemplateRequest`].
#[derive(Debug, PartialEq, Eq)]
pub struct InitiateTemplateDto {
    /// The asset to forward.
    pub asset: Json,
    /// The location to forward it to.
    pub location: String,
}

impl InitiateTemplateDto {
    /// Whether `request` is what this document gives.
    pub open spec fn gives(
        self,
        request: Result<InitiatePersistentForwardingTemplateRequest, CodedError>,
    ) -> bool {
        match asset_of(self.asset@) {
            Ok(named) => request matches Ok(request) && request.asset@ == named && request.location
                == self.location,
            Err(reason) => request matches Err(error) && error.says("INVALID_INPUT"@, reason),
        }
    }

    /// The request that this document gives.
    pub fn into_core(self) -> (request: Result<
        InitiatePersistentForwardingTemplateRequest,
        CodedError,
    >)
        ensures
            self.gives(request),
    {
        match asset_or_pair(self.asset) {
            Ok(asset) => Ok(
                InitiatePersistentForwardingTemplateRequest { asset, location: self.location },
            ),
            Err(error) => Err(error),
        }
    }
}

/// A request to create a persistent-forwarding template.
#[derive(Debug, PartialEq, Eq)]
pub enum CreatePersistentForwardingTemplateRequest {
    /// Completes a session that was opened before.
    Completion {
        /// The session's id, when it has one.
        id: Option<String>,
        /// What the session asked for.
        data: Json,
    },
    /// Creates a template outright.
    Direct {
        /// The asset to forward.
        asset: AssetOrPair,
        /// The location to forward it to.
        location: String,
        /// The address to forward it to.
        address: Json,
    },
}

/// The document of a [`CreatePersistentForwardingTemplateRequest`].
#[derive(Debug, PartialEq, Eq)]
pub struct CreateTemplateDto {
    /// The asset to forward.
    pub asset: Option<Json>,
    /// The location to forward it to.
    pub location: Option<String>,
    /// The address to forward it to.
    pub address: Option<Json>,
    /// The session's id, when it has one.
    pub id: Option<String>,
    /// What the session asked for.
    pub data: Option<Json>,
}

impl CreateTemplateDto {
    /// Whether `request` is what this document gives: a completion where there is session data, else
    /// a direct template, which takes an asset, a location and an address.
    pub open spec fn gives(
        self,
        request: Result<CreatePersistentForwardingTemplateRequest, CodedError>,
    ) -> bool {
        match self.data {
            Some(data) => request == Ok::<CreatePersistentForwardingTemplateRequest, CodedError>(
                CreatePersistentForwardingTemplateRequest::Completion { id: self.id, data },
            ),
            None => match (self.asset, self.location, self.address) {
                (Some(asset), Some(location), Some(address)) => match asset_of(asset@) {
                    Ok(named) => request matches Ok(
                        CreatePersistentForwardingTemplateRequest::Direct {
                            asset: found,
                            location: place,
                            address: target,
                        },
                    ) && found@ == named && place == location && target == address,
                    Err(reason) => request matches Err(error) && error.says(
                        "INVALID_INPUT"@,
                        reason,
                    ),
                },
                _ => request matches Err(error) && error.says(
                    "INVALID_INPUT"@,
                    "a direct template requires asset, location, and address"@,
                ),
            },
        }
    }

    /// The request that this document gives.
    pub fn into_core(self) -> (request: Result<
        CreatePersistentForwardingTemplateRequest,
        CodedError,
    >)
        ensures
            self.gives(request),
    {
        if let Some(data) = self.data {
            return Ok(CreatePersistentForwardingTemplateRequest::Completion { id: self.id, data });
        }
        match (self.asset, self.location, self.address) {
            (Some(asset), Some(location), Some(address)) => match asset_or_pair(asset) {
                Ok(asset) => Ok(
                    CreatePersistentForwardingTemplateRequest::Direct { asset, location, address },
                ),
                Err(error) => Err(error),
            },
            _ => Err(invalid("a direct template requires asset, location, and address")),
        }
    }
}

/// A request to list persistent-forwarding templates.
#[derive(Debug, PartialEq, Eq)]
pub struct ListForwardingAddressTemplatesRequest {
    /// Only those for these assets.
    pub asset: Option<Vec<String>>,
    /// Only those for these locations.
    pub location: Option<Vec<String>>,
}

/// The document of a [`ListForwardingAddressTemplatesRequest`].
#[derive(Debug, PartialEq, Eq)]
pub struct ListTemplatesDto {
    /// Only those for these assets.
    pub asset: Option<Vec<String>>,
    /// Only those for these locations.
    pub location: Option<Vec<String>>,
}

impl ListTemplatesDto {
    /// The request that this document gives.
    pub fn into_core(self) -> (request: ListForwardingAddressTemplatesRequest)
        ensures
            request == (ListForwardingAddressTemplatesRequest {
                asset: self.asset,
                location: self.location,
            }),
    {
        ListForwardingAddressTemplatesRequest { asset: self.asset, location: self.location }
    }
}

/// Where a persistent-forwarding address forwards to.
#[derive(Debug, PartialEq, Eq)]
pub enum ForwardingDestination {
    /// To an address.
    Address {
        /// The address's location.
        location: String,
        /// The address.
        address: Json,
    },
    /// To where a template says.
    Template {
        /// The template's id.
        persistent_address_template_id: String,
    },
}

/// A request to create a persistent-forwarding address.
#[derive(Debug, PartialEq, Eq)]
pub struct CreatePersistentForwardingAddressRequest {
    /// The location to forward from.
    pub source_location: String,
    /// The asset to forward.
    pub asset: AssetOrPair,
    /// The rail to send it out by.
    pub outgoing_rail: Option<String>,
    /// The rail it comes in by.
    pub incoming_rail: Option<String>,
    /// Where to forward it to.
    pub destination: ForwardingDestination,
}

/// The document of a [`CreatePersistentForwardingAddressRequest`].
#[derive(Debug, PartialEq, Eq)]
pub struct CreateAddressDto {
    /// The location to forward from.
    pub source_location: String,
    /// The asset to forward.
    pub asset: Json,
    /// The rail to send it out by.
    pub outgoing_rail: Option<String>,
    /// The rail it comes in by.
    pub incoming_rail: Option<String>,
    /// The location of the address to forward to.
    pub destination_location: Option<String>,
    /// The address to forward to.
    pub destination_address: Option<Json>,
    /// The id of the template that says where to forward to.
    pub persistent_address_template_id: Option<String>,
}

impl CreateAddressDto {
    /// Where this document forwards to: a full address, else a template; [`None`] where it has
    /// neither.
    pub open spec fn destination(self) -> Option<ForwardingDestination> {
        match (
            self.destination_location,
            self.destination_address,
            self.persistent_address_template_id,
        ) {
            (Some(location), Some(address), _) => Some(
                ForwardingDestination::Address { location, address },
            ),
            (_, _, Some(persistent_address_template_id)) => Some(
                ForwardingDestination::Template { persistent_address_template_id },
            ),
            _ => None,
        }
    }

    /// Whether `request` is what this document gives; a missing destination is told before a bad
    /// asset.
    pub open spec fn gives(
        self,
        request: Result<CreatePersistentForwardingAddressRequest, CodedError>,
    ) -> bool {
        match self.destination() {
            Some(destination) => match asset_of(self.asset@) {
                Ok(named) => request matches Ok(request) && request.asset@ == named
                    && request.destination == destination && request.source_location
                    == self.source_location && request.outgoing_rail == self.outgoing_rail
                    && request.incoming_rail == self.incoming_rail,
                Err(reason) => request matches Err(error) && error.says("INVALID_INPUT"@, reason),
            },
            None => request matches Err(error) && error.says(
                "INVALID_INPUT"@,
                "a forwarding address requires either a destination address or a template id"@,
            ),
        }
    }

    /// The request that this document gives.
    pub fn into_core(self) -> (request: Result<CreatePersistentForwardingAddressRequest, CodedError>)
        ensures
            self.gives(request),
    {
        let destination = match (
            self.destination_location,
            self.destination_address,
            self.persistent_address_template_id,
        ) {
            (Some(location), Some(address), _) => ForwardingDestination::Address {
                location,
                address,
            },
            (_, _, Some(persistent_address_template_id)) => ForwardingDestination::Template {
                persistent_address_template_id,
            },
            _ => {
                return Err(
                    invalid(
                        "a forwarding address requires either a destination address or a template id",
                    ),
                );
            },
        };
        match asset_or_pair(self.asset) {
            Ok(asset) => Ok(
                CreatePersistentForwardingAddressRequest {
                    source_location: self.source_location,
                    asset,
                    outgoing_rail: self.outgoing_rail,
                    incoming_rail: self.incoming_rail,
                    destination,
                },
            ),
            Err(error) => Err(error),
        }
    }
}

/// One filter over persistent-forwarding addresses.
#[derive(Debug, PartialEq, Eq)]
pub struct ForwardingAddressFilter {
    /// Only those that forward from this location.
    pub source_location: Option<String>,
    /// Only those that forward to this location.
    pub destination_location: Option<String>,
    /// Only those for this asset.
    pub asset: Option<String>,
    /// Only those that forward to this address.
    pub destination_address: Option<String>,
    /// Only those of this template.
    pub persistent_address_template_id: Option<String>,
}

/// The document of a [`ForwardingAddressFilter`].
#[derive(Debug, PartialEq, Eq)]
pub struct AddressFilterDto {
    /// Only those that forward from this location.
    pub source_location: Option<String>,
    /// Only those that forward to this location.
    pub destination_location: Option<String>,
    /// Only those for this asset.
    pub asset: Option<String>,
    /// Only those that forward to this address.
    pub destination_address: Option<String>,
    /// Only those of this template.
    pub persistent_address_template_id: Option<String>,
}

impl From<AddressFilterDto> for ForwardingAddressFilter {
    fn from(dto: AddressFilterDto) -> (filter: Self) {
        Self {
            source_location: dto.source_location,
            destination_location: dto.destination_location,
            asset: dto.asset,
            destination_address: dto.destination_address,
            persistent_address_template_id: dto.persistent_address_template_id,
        }
    }
}

/// The filter that a document gives.
pub open spec fn address_filter(dto: AddressFilterDto) -> ForwardingAddressFilter {
    ForwardingAddressFilter {
        source_location: dto.source_location,
        destination_location: dto.destination_location,
        asset: dto.asset,
        destination_address: dto.destination_address,
        persistent_address_template_id: dto.persistent_address_template_id,
    }
}

impl vstd::std_specs::convert::FromSpecImpl<AddressFilterDto> for ForwardingAddressFilter {
    open spec fn obeys_from_spec() -> bool {
        true
    }

    open spec fn from_spec(dto: AddressFilterDto) -> Self {
        address_filter(dto)
    }
}

/// A request to list persistent-forwarding addresses.
#[derive(Debug, PartialEq, Eq)]
pub struct ListForwardingAddressesRequest {
    /// Only those that pass one of these.
    pub search: Option<Vec<ForwardingAddressFilter>>,
    /// The page to list.
    pub pagination: Pagination,
}

/// The document of a [`ListForwardingAddressesRequest`].
#[derive(Debug, PartialEq, Eq)]
pub struct ListAddressesDto {
    /// Only those that pass one of these.
    pub search: Option<Vec<AddressFilterDto>>,
    /// The page to list.
    pub pagination: PaginationDto,
}

impl ListAddressesDto {
    /// Whether `request` is what this document gives: the filters in order, and the page.
    pub open spec fn gives(self, request: ListForwardingAddressesRequest) -> bool {
        &&& match self.search {
            Some(filters) => request.search matches Some(search) && search@
                == filters@.map_values(|dto: AddressFilterDto| address_filter(dto)),
            None => request.search is None,
        }
        &&& request.pagination == (Pagination {
            limit: self.pagination.limit,
            offset: self.pagination.offset,
        })
    }

    /// The request that this document gives.
    pub fn into_core(self) -> (request: Result<ListForwardingAddressesRequest, CodedError>)
        ensures
            request matches Ok(request) && self.gives(request),
    {
        let search = match self.search {
            Some(filters) => {
                let ghost all = filters@;
                let mut search: Vec<ForwardingAddressFilter> = Vec::new();
                for filter in it: filters
                    invariant
                        it.seq() == all,
                        search@.len() == it.index(),
                        forall|i: int|
                            0 <= i < search@.len() ==> search@[i] == address_filter(all[i]),
                {
                    search.push(ForwardingAddressFilter::from(filter));
                }
                assert(search@ =~= all.map_values(|dto: AddressFilterDto| address_filter(dto)));
                Some(search)
            },
            None => None,
        };
        Ok(
            ListForwardingAddressesRequest {
                search,
                pagination: Pagination::from(self.pagination),
            },
        )
    }
}

/// A persistent-address filter for listing transactions.
#[derive(Debug, PartialEq, Eq)]
pub struct PersistentAddressFilter {
    /// The address's location.
    pub location: String,
    /// The address, when one is meant.
    pub persistent_address: Option<String>,
    /// The template, when one is meant.
    pub persistent_address_template: Option<String>,
}

/// The document of a [`PersistentAddressFilter`].
#[derive(Debug, PartialEq, Eq)]
pub struct PersistentAddressFilterDto {
    /// The address's location.
    pub location: String,
    /// The address, when one is meant.
    pub persistent_address: Option<String>,
    /// The template, when one is meant.
    pub persistent_address_template: Option<String>,
}

impl From<PersistentAddressFilterDto> for PersistentAddressFilter {
    fn from(dto: PersistentAddressFilterDto) -> (filter: Self) {
        Self {
            location: dto.location,
            persistent_address: dto.persistent_address,
            persistent_address_template: dto.persistent_address_template,
        }
    }
}

/// The filter that a document gives.
pub open spec fn persistent_filter(dto: PersistentAddressFilterDto) -> PersistentAddressFilter {
    PersistentAddressFilter {
        location: dto.location,
        persistent_address: dto.persistent_address,
        persistent_address_template: dto.persistent_address_template,
    }
}

impl vstd::std_specs::convert::FromSpecImpl<PersistentAddressFilterDto> for PersistentAddressFilter {
    open spec fn obeys_from_spec() -> bool {
        true
    }

    open spec fn from_spec(dto: PersistentAddressFilterDto) -> Self {
        persistent_filter(dto)
    }
}

/// A source or destination filter for listing transactions.
#[derive(Debug, PartialEq, Eq)]
pub struct TransactionEndpointFilter {
    /// The location.
    pub location: String,
    /// The user's address there, when one is meant.
    pub user_address: Option<String>,
    /// The asset, when one is meant.
    pub asset: Option<String>,
}

/// The document of a [`TransactionEndpointFilter`].
#[derive(Debug, PartialEq, Eq)]
pub struct EndpointFilterDto {
    /// The location.
    pub location: String,
    /// The user's address there, when one is meant.
    pub user_address: Option<String>,
    /// The asset, when one is meant.
    pub asset: Option<String>,
}

impl From<EndpointFilterDto> for TransactionEndpointFilter {
    fn from(dto: EndpointFilterDto) -> (filter: Self) {
        Self { location: dto.location, user_address: dto.user_address, asset: dto.asset }
    }
}

/// The filter that a document gives.
pub open spec fn endpoint_filter(dto: EndpointFilterDto) -> TransactionEndpointFilter {
    TransactionEndpointFilter {
        location: dto.location,
        user_address: dto.user_address,
        asset: dto.asset,
    }
}

impl vstd::std_specs::convert::FromSpecImpl<EndpointFilterDto> for TransactionEndpointFilter {
    open spec fn obeys_from_spec() -> bool {
        true
    }

    open spec fn from_spec(dto: EndpointFilterDto) -> Self {
        endpoint_filter(dto)
    }
}

/// A specific-transaction filter for listing transactions.
#[derive(Debug, PartialEq, Eq)]
pub struct TransactionRefFilter {
    /// The transaction's location.
    pub location: String,
    /// The transaction.
    pub transaction: Json,
}

/// The document of a [`TransactionRefFilter`].
#[derive(Debug, PartialEq, Eq)]
pub struct TransactionRefDto {
    /// The transaction's location.
    pub location: String,
    /// The transaction.
    pub transaction: Json,
}

impl From<TransactionRefDto> for TransactionRefFilter {
    fn from(dto: TransactionRefDto) -> (filter: Self) {
        Self { location: dto.location, transaction: dto.transaction }
    }
}

/// The filter that a document gives.
pub open spec fn transaction_filter(dto: TransactionRefDto) -> TransactionRefFilter {
    TransactionRefFilter { location: dto.location, transaction: dto.transaction }
}

impl vstd::std_specs::convert::FromSpecImpl<TransactionRefDto> for TransactionRefFilter {
    open spec fn obeys_from_spec() -> bool {
        true
    }

    open spec fn from_spec(dto: TransactionRefDto) -> Self {
        transaction_filter(dto)
    }
}

/// A request to list asset-movement transactions.
#[derive(Debug, PartialEq, Eq)]
pub struct ListTransactionsRequest {
    /// Only those through these persistent addresses.
    pub persistent_addresses: Option<Vec<PersistentAddressFilter>>,
    /// Only those from here.
    pub from: Option<TransactionEndpointFilter>,
    /// Only those to here.
    pub to: Option<TransactionEndpointFilter>,
    /// Only these.
    pub transactions: Option<Vec<TransactionRefFilter>>,
    /// The page to list.
    pub pagination: Pagination,
}

/// The document of a [`ListTransactionsRequest`].
#[derive(Debug, PartialEq, Eq)]
pub struct ListTransactionsDto {
    /// Only those through these persistent addresses.
    pub persistent_addresses: Option<Vec<PersistentAddressFilterDto>>,
    /// Only those from here.
    pub from: Option<EndpointFilterDto>,
    /// Only those to here.
    pub to: Option<EndpointFilterDto>,
    /// Only these.
    pub transactions: Option<Vec<TransactionRefDto>>,
    /// The page to list.
    pub pagination: PaginationDto,
}

impl ListTransactionsDto {
    /// Whether `request` is what this document gives: every filter, in order, and the page.
    pub open spec fn gives(self, request: ListTransactionsRequest) -> bool {
        &&& match self.persistent_addresses {
            Some(filters) => request.persistent_addresses matches Some(found) && found@
                == filters@.map_values(|dto: PersistentAddressFilterDto| persistent_filter(dto)),
            None => request.persistent_addresses is None,
        }
        &&& request.from == match self.from {
            Some(filter) => Some(endpoint_filter(filter)),
            None => None,
        }
        &&& request.to == match self.to {
            Some(filter) => Some(endpoint_filter(filter)),
            None => None,
        }
        &&& match self.transactions {
            Some(filters) => request.transactions matches Some(found) && found@
                == filters@.map_values(|dto: TransactionRefDto| transaction_filter(dto)),
            None => request.transactions is None,
        }
        &&& request.pagination == (Pagination {
            limit: self.pagination.limit,
            offset: self.pagination.offset,
        })
    }

    /// The request that this document gives.
    pub fn into_core(self) -> (request: Result<ListTransactionsRequest, CodedError>)
        ensures
            request matches Ok(request) && self.gives(request),
    {
        let persistent_addresses = match self.persistent_addresses {
            Some(filters) => {
                let ghost all = filters@;
                let mut found: Vec<PersistentAddressFilter> = Vec::new();
                for filter in it: filters
                    invariant
                        it.seq() == all,
                        found@.len() == it.index(),
                        forall|i: int|
                            0 <= i < found@.len() ==> found@[i] == persistent_filter(all[i]),
                {
                    found.push(PersistentAddressFilter::from(filter));
                }
                assert(found@ =~= all.map_values(
                    |dto: PersistentAddressFilterDto| persistent_filter(dto),
                ));
                Some(found)
            },
            None => None,
        };
        let transactions = match self.transactions {
            Some(filters) => {
                let ghost all = filters@;
                let mut found: Vec<TransactionRefFilter> = Vec::new();
                for filter in it: filters
                    invariant
                        it.seq() == all,
                        found@.len() == it.index(),
                        forall|i: int|
                            0 <= i < found@.len() ==> found@[i] == transaction_filter(all[i]),
                {
                    found.push(TransactionRefFilter::from(filter));
                }
                assert(found@ =~= all.map_values(|dto: TransactionRefDto| transaction_filter(dto)));
                Some(found)
            },
            None => None,
        };
        let from = match self.from {
            Some(filter) => Some(TransactionEndpointFilter::from(filter)),
            None => None,
        };
        let to = match self.to {
            Some(filter) => Some(TransactionEndpointFilter::from(filter)),
            None => None,
        };
        Ok(
            ListTransactionsRequest {
                persistent_addresses,
                from,
                to,
                transactions,
                pagination: Pagination::from(self.pagination),
            },
        )
    }
}

/// A request to share KYC attributes.
#[derive(Debug, PartialEq, Eq)]
pub struct ShareKycRequest {
    /// The attributes to share.
    pub attributes: String,
    /// The terms the user agreed to, when any.
    pub tos_agreement: Option<Json>,
}

/// The document of a [`ShareKycRequest`].
#[derive(Debug, PartialEq, Eq)]
pub struct ShareKycDto {
    /// The attributes to share.
    pub attributes: String,
    /// The terms the user agreed to, when any.
    pub tos_agreement: Option<Json>,
}

impl ShareKycDto {
    /// The request that this document gives.
    pub fn into_core(self) -> (request: ShareKycRequest)
        ensures
            request == (ShareKycRequest {
                attributes: self.attributes,
                tos_agreement: self.tos_agreement,
            }),
    {
        ShareKycRequest { attributes: self.attributes, tos_agreement: self.tos_agreement }
    }
}

/// Whether `request` is what an argument gives that was read as `read`.
pub open spec fn reads_transfer(
    read: Result<TransferReqDto, serde_json::Error>,
    request: Result<TransferRequest, CodedError>,
) -> bool {
    match read {
        Ok(dto) => dto.gives(request),
        Err(reason) => request matches Err(error) && rejects_json(error, reason),
    }
}

/// The transfer request (simulate or initiate) of an argument that was read as its document.
pub fn transfer_request(read: Result<TransferReqDto, serde_json::Error>) -> (request: Result<
    TransferRequest,
    CodedError,
>)
    ensures
        reads_transfer(read, request),
{
    match parse(read) {
        Ok(dto) => dto.into_core(),
        Err(error) => Err(error),
    }
}

/// Whether `request` is what an argument gives that was read as `read`.
pub open spec fn reads_execution(
    read: Result<ExecuteReqDto, serde_json::Error>,
    request: Result<ExecuteTransferRequest, CodedError>,
) -> bool {
    match read {
        Ok(dto) => request == Ok::<ExecuteTransferRequest, CodedError>(
            ExecuteTransferRequest { id: dto.id, instruction: dto.instruction },
        ),
        Err(reason) => request matches Err(error) && rejects_json(error, reason),
    }
}

/// The execute-transfer request of an argument that was read as its document.
pub fn execute_request(read: Result<ExecuteReqDto, serde_json::Error>) -> (request: Result<
    ExecuteTransferRequest,
    CodedError,
>)
    ensures
        reads_execution(read, request),
{
    match parse(read) {
        Ok(dto) => Ok(dto.into_core()),
        Err(error) => Err(error),
    }
}

/// Whether `request` is what an argument gives that was read as `read`.
pub open spec fn reads_template_session(
    read: Result<InitiateTemplateDto, serde_json::Error>,
    request: Result<InitiatePersistentForwardingTemplateRequest, CodedError>,
) -> bool {
    match read {
        Ok(dto) => dto.gives(request),
        Err(reason) => request matches Err(error) && rejects_json(error, reason),
    }
}

/// The initiate-forwarding-template request of an argument that was read as its document.
pub fn initiate_template_request(
    read: Result<InitiateTemplateDto, serde_json::Error>,
) -> (request: Result<InitiatePersistentForwardingTemplateRequest, CodedError>)
    ensures
        reads_template_session(read, request),
{
    match parse(read) {
        Ok(dto) => dto.into_core(),
        Err(error) => Err(error),
    }
}

/// Whether `request` is what an argument gives that was read as `read`.
pub open spec fn reads_template(
    read: Result<CreateTemplateDto, serde_json::Error>,
    request: Result<CreatePersistentForwardingTemplateRequest, CodedError>,
) -> bool {
    match read {
        Ok(dto) => dto.gives(request),
        Err(reason) => request matches Err(error) && rejects_json(error, reason),
    }
}

/// The create-forwarding-template request of an argument that was read as its document.
pub fn create_template_request(
    read: Result<CreateTemplateDto, serde_json::Error>,
) -> (request: Result<CreatePersistentForwardingTemplateRequest, CodedError>)
    ensures
        reads_template(read, request),
{
    match parse(read) {
        Ok(dto) => dto.into_core(),
        Err(error) => Err(error),
    }
}

/// Whether `request` is what an argument gives that was read as `read`.
pub open spec fn reads_template_listing(
    read: Result<ListTemplatesDto, serde_json::Error>,
    request: Result<ListForwardingAddressTemplatesRequest, CodedError>,
) -> bool {
    match read {
        Ok(dto) => request == Ok::<ListForwardingAddressTemplatesRequest, CodedError>(
            ListForwardingAddressTemplatesRequest { asset: dto.asset, location: dto.location },
        ),
        Err(reason) => request matches Err(error) && rejects_json(error, reason),
    }
}

/// The list-forwarding-templates request of an argument that was read as its document.
pub fn list_templates_request(
    read: Result<ListTemplatesDto, serde_json::Error>,
) -> (request: Result<ListForwardingAddressTemplatesRequest, CodedError>)
    ensures
        reads_template_listing(read, request),
{
    match parse(read) {
        Ok(dto) => Ok(dto.into_core()),
        Err(error) => Err(error),
    }
}

/// Whether `request` is what an argument gives that was read as `read`.
pub open spec fn reads_address(
    read: Result<CreateAddressDto, serde_json::Error>,
    request: Result<CreatePersistentForwardingAddressRequest, CodedError>,
) -> bool {
    match read {
        Ok(dto) => dto.gives(request),
        Err(reason) => request matches Err(error) && rejects_json(error, reason),
    }
}

/// The create-forwarding-address request of an argument that was read as its document.
pub fn create_address_request(
    read: Result<CreateAddressDto, serde_json::Error>,
) -> (request: Result<CreatePersistentForwardingAddressRequest, CodedError>)
    ensures
        reads_address(read, request),
{
    match parse(read) {
        Ok(dto) => dto.into_core(),
        Err(error) => Err(error),
    }
}

/// Whether `request` is what an argument gives that was read as `read`.
pub open spec fn reads_address_listing(
    read: Result<ListAddressesDto, serde_json::Error>,
    request: Result<ListForwardingAddressesRequest, CodedError>,
) -> bool {
    match read {
        Ok(dto) => request matches Ok(request) && dto.gives(request),
        Err(reason) => request matches Err(error) && rejects_json(error, reason),
    }
}

/// The list-forwarding-addresses request of an argument that was read as its document.
pub fn list_addresses_request(
    read: Result<ListAddressesDto, serde_json::Error>,
) -> (request: Result<ListForwardingAddressesRequest, CodedError>)
    ensures
        reads_address_listing(read, request),
{
    match parse(read) {
        Ok(dto) => dto.into_core(),
        Err(error) => Err(error),
    }
}

/// Whether `request` is what an argument gives that was read as `read`.
pub open spec fn reads_transaction_listing(
    read: Result<ListTransactionsDto, serde_json::Error>,
    request: Result<ListTransactionsRequest, CodedError>,
) -> bool {
    match read {
        Ok(dto) => request matches Ok(request) && dto.gives(request),
        Err(reason) => request matches Err(error) && rejects_json(error, reason),
    }
}

/// The list-transactions request of an argument that was read as its document.
pub fn list_transactions_request(
    read: Result<ListTransactionsDto, serde_json::Error>,
) -> (request: Result<ListTransactionsRequest, CodedError>)
    ensures
        reads_transaction_listing(read, request),
{
    match parse(read) {
        Ok(dto) => dto.into_core(),
        Err(error) => Err(error),
    }
}

/// Whether `request` is what an argument gives that was read as `read`.
pub open spec fn reads_sharing(
    read: Result<ShareKycDto, serde_json::Error>,
    request: Result<ShareKycRequest, CodedError>,
) -> bool {
    match read {
        Ok(dto) => request == Ok::<ShareKycRequest, CodedError>(
            ShareKycRequest { attributes: dto.attributes, tos_agreement: dto.tos_agreement },
        ),
        Err(reason) => request matches Err(error) && rejects_json(error, reason),
    }
}

/// The share-KYC request of an argument that was read as its document.
pub fn share_kyc_attributes_request(read: Result<ShareKycDto, serde_json::Error>) -> (request:
    Result<ShareKycRequest, CodedError>)
    ensures
        reads_sharing(read, request),
{
    match parse(read) {
        Ok(dto) => Ok(dto.into_core()),
        Err(error) => Err(error),
    }
}

/// Whether `search` is what an argument gives that was read as `read`.
pub open spec fn reads_search(
    read: Result<ProviderSearchDto, serde_json::Error>,
    search: Result<ProviderSearch, CodedError>,
) -> bool {
    match read {
        Ok(dto) => dto.gives(search),
        Err(reason) => search matches Err(error) && rejects_json(error, reason),
    }
}

/// The provider search of an argument that was read as its document.
pub fn parse_provider_search(read: Result<ProviderSearchDto, serde_json::Error>) -> (search: Result<
    ProviderSearch,
    CodedError,
>)
    ensures
        reads_search(read, search),
{
    match parse(read) {
        Ok(dto) => dto.into_core(),
        Err(error) => Err(error),
    }
}

/// Session data outranks what describes a template outright: with it, a request completes the
/// session.
pub proof fn law_session_data_completes(
    dto: CreateTemplateDto,
    request: Result<CreatePersistentForwardingTemplateRequest, CodedError>,
)
    requires
        dto.gives(request),
    ensures
        dto.data is Some <==> request matches Ok(
            CreatePersistentForwardingTemplateRequest::Completion { .. },
        ),
{
}

/// A destination address outranks a template, and a template stands in where the address or its
/// location is missing.
pub proof fn law_address_outranks_template(
    dto: CreateAddressDto,
    request: CreatePersistentForwardingAddressRequest,
)
    requires
        dto.gives(Ok(request)),
    ensures
        request.destination is Address <==> dto.destination_location is Some
            && dto.destination_address is Some,
        request.destination is Template ==> dto.persistent_address_template_id is Some,
{
}

/// Whatever is wrong with a provider search, it is an invalid input.
pub proof fn law_bad_searches_are_invalid_input(
    read: Result<ProviderSearchDto, serde_json::Error>,
    error: CodedError,
)
    requires
        reads_search(read, Err(error)),
    ensures
        error.code@ == "INVALID_INPUT"@,
{
}

} // verus!
