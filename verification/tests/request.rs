use keetanetwork_anchor_client::coded::{invalid, CodedError};
use keetanetwork_anchor_client::json::Json;
use keetanetwork_anchor_client::request::{
    asset_or_pair, create_address_request, create_template_request, execute_request,
    initiate_template_request, list_addresses_request, list_templates_request,
    list_transactions_request, parse_provider_search, share_kyc_attributes_request,
    transfer_request, value_string, AddressFilterDto, AssetOrPair, CreateAddressDto,
    CreatePersistentForwardingTemplateRequest, CreateTemplateDto, DestinationDto,
    EndpointFilterDto, ExecuteReqDto, ForwardingDestination, InitiateTemplateDto,
    ListAddressesDto, ListTemplatesDto, ListTransactionsDto, Pagination, PaginationDto,
    PersistentAddressFilterDto, ProviderSearchDto, ShareKycDto, SourceDto, TransactionRefDto,
    TransferDestination, TransferReqDto, TransferSource,
};

fn read(text: &str) -> Json {
    Json::from_slice(text.as_bytes()).unwrap()
}

fn text(of: &str) -> Option<String> {
    Some(of.to_string())
}

fn broken() -> serde_json::Error {
    serde_json::from_slice::<serde_json::Value>(b"]").unwrap_err()
}

fn rejected() -> CodedError {
    CodedError { code: "INVALID_INPUT".to_string(), message: broken().to_string() }
}

fn pair() -> AssetOrPair {
    AssetOrPair::Pair { from: "USD".to_string(), to: "EUR".to_string() }
}

fn transfer(asset: &str, value: &str) -> TransferReqDto {
    TransferReqDto {
        asset: read(asset),
        from: SourceDto { location: "bank".to_string(), source: Some(read("1")) },
        to: DestinationDto {
            location: "chain".to_string(),
            recipient: Some(read(r#""keeta_r""#)),
            deposit_message: text("memo"),
        },
        value: read(value),
        allowed_rails: vec!["ACH".to_string()],
    }
}

fn address(asset: &str) -> CreateAddressDto {
    CreateAddressDto {
        source_location: "bank".to_string(),
        asset: read(asset),
        outgoing_rail: text("OUT"),
        incoming_rail: None,
        destination_location: text("chain"),
        destination_address: Some(read(r#""addr""#)),
        persistent_address_template_id: text("t1"),
    }
}

#[test]
fn an_asset_is_a_string_or_a_pair() {
    assert_eq!(asset_or_pair(read(r#""USD""#)), Ok(AssetOrPair::Single("USD".to_string())));
    assert_eq!(asset_or_pair(read(r#"{"to":"EUR","from":"USD","x":1}"#)), Ok(pair()));
    for text in [r#"{"from":"USD"}"#, r#"{"to":"EUR"}"#, r#"{"from":"USD","to":null}"#, "{}"] {
        assert_eq!(asset_or_pair(read(text)), Err(invalid("missing required string field")));
    }
    for text in ["1", "null", "true", r#"["USD"]"#] {
        assert_eq!(
            asset_or_pair(read(text)),
            Err(invalid("asset must be a string or a { from, to } pair"))
        );
    }
}

#[test]
fn an_amount_is_carried_in_decimal() {
    assert_eq!(value_string(read(r#""12.50""#)), Ok("12.50".to_string()));
    assert_eq!(value_string(read("42")), Ok("42".to_string()));
    assert_eq!(value_string(read("-7")), Ok("-7".to_string()));
    assert_eq!(value_string(read("0.5")), Ok("0.5".to_string()));
    assert_eq!(value_string(read("18446744073709551615")), Ok("18446744073709551615".to_string()));
    for text in ["null", "true", "[1]", "{}"] {
        assert_eq!(value_string(read(text)), Err(invalid("value must be a string or a number")));
    }
}

#[test]
fn a_transfer_request_carries_its_document() {
    let request = transfer_request(Ok(transfer(r#"{"from":"USD","to":"EUR"}"#, "10"))).unwrap();
    assert_eq!(request.asset, pair());
    assert_eq!(
        request.from,
        TransferSource { location: "bank".to_string(), source: Some(read("1")) }
    );
    assert_eq!(
        request.to,
        TransferDestination {
            location: "chain".to_string(),
            recipient: Some(read(r#""keeta_r""#)),
            deposit_message: text("memo"),
        }
    );
    assert_eq!(request.value, "10");
    assert_eq!(request.allowed_rails, ["ACH"]);
}

#[test]
fn a_bad_asset_is_told_before_a_bad_amount() {
    assert_eq!(
        transfer_request(Ok(transfer("1", "null"))),
        Err(invalid("asset must be a string or a { from, to } pair"))
    );
    assert_eq!(
        transfer_request(Ok(transfer(r#""USD""#, "null"))),
        Err(invalid("value must be a string or a number"))
    );
}

#[test]
fn unreadable_requests_are_invalid_inputs() {
    assert_eq!(transfer_request(Err(broken())), Err(rejected()));
    assert_eq!(execute_request(Err(broken())), Err(rejected()));
    assert_eq!(initiate_template_request(Err(broken())), Err(rejected()));
    assert_eq!(create_template_request(Err(broken())), Err(rejected()));
    assert_eq!(list_templates_request(Err(broken())), Err(rejected()));
    assert_eq!(create_address_request(Err(broken())), Err(rejected()));
    assert_eq!(list_addresses_request(Err(broken())), Err(rejected()));
    assert_eq!(list_transactions_request(Err(broken())), Err(rejected()));
    assert_eq!(share_kyc_attributes_request(Err(broken())), Err(rejected()));
    assert_eq!(parse_provider_search(Err(broken())), Err(rejected()));
}

#[test]
fn plain_requests_carry_their_documents() {
    let execute = ExecuteReqDto { id: "t".to_string(), instruction: read("{}") };
    let request = execute_request(Ok(execute)).unwrap();
    assert_eq!((request.id.as_str(), request.instruction), ("t", read("{}")));

    let list = ListTemplatesDto { asset: Some(vec!["USD".to_string()]), location: None };
    let request = list_templates_request(Ok(list)).unwrap();
    assert_eq!((request.asset, request.location), (Some(vec!["USD".to_string()]), None));

    let share = ShareKycDto { attributes: "pem".to_string(), tos_agreement: Some(read("1")) };
    let request = share_kyc_attributes_request(Ok(share)).unwrap();
    assert_eq!((request.attributes.as_str(), request.tos_agreement), ("pem", Some(read("1"))));
}

#[test]
fn a_template_session_takes_an_asset() {
    let dto = |asset: &str| InitiateTemplateDto { asset: read(asset), location: "l".to_string() };
    let request = initiate_template_request(Ok(dto(r#""USD""#))).unwrap();
    assert_eq!(request.asset, AssetOrPair::Single("USD".to_string()));
    assert_eq!(request.location, "l");
    assert_eq!(
        initiate_template_request(Ok(dto("{}"))),
        Err(invalid("missing required string field"))
    );
}

#[test]
fn session_data_makes_a_completion() {
    let dto = CreateTemplateDto {
        asset: Some(read("1")),
        location: text("l"),
        address: Some(read("2")),
        id: text("s"),
        data: Some(read("{}")),
    };
    assert_eq!(
        create_template_request(Ok(dto)),
        Ok(CreatePersistentForwardingTemplateRequest::Completion { id: text("s"), data: read("{}") })
    );
}

#[test]
fn a_direct_template_takes_all_three() {
    let dto = |asset: Option<&str>, location: Option<String>, address: Option<&str>| {
        CreateTemplateDto {
            asset: asset.map(read),
            location,
            address: address.map(read),
            id: text("ignored"),
            data: None,
        }
    };
    assert_eq!(
        create_template_request(Ok(dto(Some(r#""USD""#), text("l"), Some("5")))),
        Ok(CreatePersistentForwardingTemplateRequest::Direct {
            asset: AssetOrPair::Single("USD".to_string()),
            location: "l".to_string(),
            address: read("5"),
        })
    );
    let incomplete = invalid("a direct template requires asset, location, and address");
    for incomplete_dto in [
        dto(None, text("l"), Some("5")),
        dto(Some("1"), None, Some("5")),
        dto(Some("1"), text("l"), None),
    ] {
        assert_eq!(
            create_template_request(Ok(incomplete_dto)).unwrap_err(),
            incomplete
        );
    }
    assert_eq!(
        create_template_request(Ok(dto(Some("1"), text("l"), Some("5")))),
        Err(invalid("asset must be a string or a { from, to } pair"))
    );
}

#[test]
fn an_address_outranks_a_template() {
    let request = create_address_request(Ok(address(r#""USD""#))).unwrap();
    assert_eq!(request.source_location, "bank");
    assert_eq!(request.asset, AssetOrPair::Single("USD".to_string()));
    assert_eq!(request.outgoing_rail, text("OUT"));
    assert_eq!(request.incoming_rail, None);
    assert_eq!(
        request.destination,
        ForwardingDestination::Address {
            location: "chain".to_string(),
            address: read(r#""addr""#)
        }
    );

    let mut half = address(r#""USD""#);
    half.destination_address = None;
    assert_eq!(
        create_address_request(Ok(half)).unwrap().destination,
        ForwardingDestination::Template { persistent_address_template_id: "t1".to_string() }
    );
}

#[test]
fn a_missing_destination_is_told_before_a_bad_asset() {
    let nowhere =
        invalid("a forwarding address requires either a destination address or a template id");
    let mut dto = address("1");
    dto.destination_location = None;
    dto.persistent_address_template_id = None;
    assert_eq!(create_address_request(Ok(dto)), Err(nowhere));
    assert_eq!(
        create_address_request(Ok(address("1"))),
        Err(invalid("asset must be a string or a { from, to } pair"))
    );
}

#[test]
fn address_filters_keep_their_order_and_page() {
    let filter = |asset: &str| AddressFilterDto {
        source_location: text("s"),
        destination_location: text("d"),
        asset: text(asset),
        destination_address: text("a"),
        persistent_address_template_id: text("t"),
    };
    let dto = ListAddressesDto {
        search: Some(vec![filter("x"), filter("y")]),
        pagination: PaginationDto { limit: Some(2), offset: None },
    };
    let request = list_addresses_request(Ok(dto)).unwrap();
    assert_eq!(request.pagination, Pagination { limit: Some(2), offset: None });
    let search = request.search.unwrap();
    assert_eq!(search.len(), 2);
    assert_eq!(search[0].asset, text("x"));
    assert_eq!(search[1].asset, text("y"));
    assert_eq!(search[0].source_location, text("s"));
    assert_eq!(search[0].destination_location, text("d"));
    assert_eq!(search[0].destination_address, text("a"));
    assert_eq!(search[0].persistent_address_template_id, text("t"));

    let all = ListAddressesDto { search: None, pagination: PaginationDto::default() };
    let request = list_addresses_request(Ok(all)).unwrap();
    assert_eq!(request.search, None);
    assert_eq!(request.pagination, Pagination { limit: None, offset: None });
}

#[test]
fn transaction_filters_keep_their_order_and_page() {
    let endpoint = |location: &str| EndpointFilterDto {
        location: location.to_string(),
        user_address: text("u"),
        asset: None,
    };
    let persistent = |location: &str| PersistentAddressFilterDto {
        location: location.to_string(),
        persistent_address: text("p"),
        persistent_address_template: text("t"),
    };
    let reference = |location: &str| TransactionRefDto {
        location: location.to_string(),
        transaction: read("[9]"),
    };
    let dto = ListTransactionsDto {
        persistent_addresses: Some(vec![persistent("p1"), persistent("p2")]),
        from: Some(endpoint("f")),
        to: Some(endpoint("t")),
        transactions: Some(vec![reference("r1"), reference("r2")]),
        pagination: PaginationDto { limit: None, offset: Some(4) },
    };
    let request = list_transactions_request(Ok(dto)).unwrap();
    let addresses = request.persistent_addresses.unwrap();
    assert_eq!(addresses.len(), 2);
    assert_eq!((addresses[0].location.as_str(), addresses[1].location.as_str()), ("p1", "p2"));
    assert_eq!(addresses[0].persistent_address, text("p"));
    assert_eq!(addresses[0].persistent_address_template, text("t"));
    let from = request.from.unwrap();
    assert_eq!((from.location.as_str(), from.user_address, from.asset), ("f", text("u"), None));
    assert_eq!(request.to.unwrap().location, "t");
    let transactions = request.transactions.unwrap();
    assert_eq!(transactions.len(), 2);
    assert_eq!(transactions[1].location, "r2");
    assert_eq!(transactions[0].transaction, read("[9]"));
    assert_eq!(request.pagination, Pagination { limit: None, offset: Some(4) });

    let all = ListTransactionsDto {
        persistent_addresses: None,
        from: None,
        to: None,
        transactions: None,
        pagination: PaginationDto::default(),
    };
    let request = list_transactions_request(Ok(all)).unwrap();
    assert!(request.persistent_addresses.is_none() && request.transactions.is_none());
    assert!(request.from.is_none() && request.to.is_none());
}

#[test]
fn a_search_takes_an_optional_asset() {
    let dto = |asset: Option<&str>| ProviderSearchDto {
        asset: asset.map(read),
        from: text("bank"),
        to: None,
        inbound_rails: vec!["IN".to_string()],
        outbound_rails: vec!["OUT".to_string()],
    };
    let search = parse_provider_search(Ok(dto(Some(r#"{"from":"USD","to":"EUR"}"#)))).unwrap();
    assert_eq!(search.asset, Some(pair()));
    assert_eq!((search.from, search.to), (text("bank"), None));
    assert_eq!(search.inbound_rails, ["IN"]);
    assert_eq!(search.outbound_rails, ["OUT"]);
    assert_eq!(parse_provider_search(Ok(dto(None))).unwrap().asset, None);
    assert_eq!(
        parse_provider_search(Ok(dto(Some("null")))),
        Err(invalid("asset must be a string or a { from, to } pair"))
    );
}
