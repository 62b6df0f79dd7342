use keetanetwork_anchor_client::coded::CodedError;
use keetanetwork_anchor_client::dispatch::{
    ClientCall, ClientReply, Dispatch, DispatchEvent, Operation, RequestDocument,
};
use keetanetwork_anchor_client::error::AnchorClientError;
use keetanetwork_anchor_client::json::Json;
use keetanetwork_anchor_client::provider::ProviderDto;
use keetanetwork_anchor_client::request::{
    CreateAddressDto, CreateTemplateDto, DestinationDto, ExecuteReqDto, InitiateTemplateDto,
    ListAddressesDto, ListTemplatesDto, ListTransactionsDto, PaginationDto, ShareKycDto, SourceDto,
    TransferReqDto,
};
use keetanetwork_anchor_client::session::AwaitOptions;
use keetanetwork_anchor_client::table::NameTable;

type State = Dispatch<u8>;
type Event = DispatchEvent<u8>;

fn some(text: &str) -> Event {
    DispatchEvent::Text(Some(text.to_string()))
}

fn document() -> ProviderDto {
    ProviderDto {
        id: "p".to_string(),
        operations: NameTable::new(),
        supported_assets: Vec::new(),
        location_metadata: None,
        legal: None,
        account: None,
    }
}

fn usd() -> Json {
    Json::String("USD".to_string())
}

fn transfer(value: Json) -> RequestDocument {
    RequestDocument::Transfer(Ok(TransferReqDto {
        asset: usd(),
        from: SourceDto { location: "a".to_string(), source: None },
        to: DestinationDto { location: "b".to_string(), recipient: None, deposit_message: None },
        value,
        allowed_rails: Vec::new(),
    }))
}

fn broken() -> serde_json::Error {
    serde_json::from_slice::<serde_json::Value>(b"]").unwrap_err()
}

fn answer(state: State) -> Result<Vec<u8>, CodedError> {
    match state {
        Dispatch::Answered { answer } => answer,
        other => panic!("{:?}", other),
    }
}

/// The state of `operation` once its provider and its argument were read.
fn parsed(operation: Operation) -> State {
    State::ReadProvider { operation }
        .advance(some("{provider}"))
        .advance(some("argument"))
        .advance(DispatchEvent::Provider(Ok(document())))
}

#[test]
fn a_transfer_runs_from_its_arguments_to_its_payload() {
    let state = State::ReadProvider { operation: Operation::SimulateTransfer };
    let state = state.advance(some("{provider}"));
    assert!(matches!(&state, Dispatch::ReadArgument { provider, .. } if provider == "{provider}"));
    let state = state.advance(some("{request}"));
    assert!(matches!(
        &state,
        Dispatch::ParseProvider { provider, argument, .. }
            if provider == "{provider}" && argument == "{request}"
    ));
    let state = state.advance(DispatchEvent::Provider(Ok(document())));
    assert!(matches!(
        &state,
        Dispatch::ParseRequest { provider, argument, .. }
            if provider.id == "p" && argument == "{request}"
    ));
    let state = state.advance(DispatchEvent::Request(transfer(Json::String("5".to_string()))));
    assert!(matches!(
        &state,
        Dispatch::Call { provider, call: ClientCall::SimulateTransfer(request) }
            if provider.id == "p" && request.value == "5"
    ));
    let state = state.advance(DispatchEvent::Outcome(Ok(Ok(ClientReply::Payload(9)))));
    assert!(matches!(state, Dispatch::Encode { payload: 9 }));
    let state = state.advance(DispatchEvent::Written(Ok(b"9".to_vec())));
    assert_eq!(answer(state), Ok(b"9".to_vec()));
}

#[test]
fn an_unreadable_buffer_is_answered_at_once() {
    let error = CodedError::new("INVALID_INPUT", "unreadable argument buffer");
    let start = || State::ReadProvider { operation: Operation::TransferStatus };
    assert_eq!(answer(start().advance(DispatchEvent::Text(None))).unwrap_err(), error);
    let state = start().advance(some("p")).advance(DispatchEvent::Text(None));
    assert_eq!(answer(state).unwrap_err(), error);
}

#[test]
fn a_bad_provider_is_told_before_the_request_is_looked_at() {
    let state = State::ReadProvider { operation: Operation::SimulateTransfer }
        .advance(some("p"))
        .advance(some("r"))
        .advance(DispatchEvent::Provider(Err(broken())));
    assert_eq!(
        answer(state).unwrap_err(),
        CodedError::new("INVALID_INPUT", &broken().to_string())
    );
}

#[test]
fn a_bad_request_is_told_before_the_client_is_called() {
    let state = parsed(Operation::InitiateTransfer).advance(DispatchEvent::Request(transfer(Json::Null)));
    assert_eq!(
        answer(state).unwrap_err(),
        CodedError::new("INVALID_INPUT", "value must be a string or a number")
    );
    let state = parsed(Operation::InitiateTransfer)
        .advance(DispatchEvent::Request(RequestDocument::Transfer(Err(broken()))));
    assert_eq!(answer(state).unwrap_err().code, "INVALID_INPUT");
}

#[test]
fn an_id_goes_straight_to_the_client() {
    match parsed(Operation::TransferStatus) {
        Dispatch::Call { provider, call } => {
            assert_eq!(provider.id, "p");
            assert_eq!(call, ClientCall::TransferStatus("argument".to_string()));
        }
        other => panic!("{:?}", other),
    }
}

#[test]
fn a_void_call_is_acknowledged() {
    for operation in [
        Operation::DeactivatePersistentForwardingTemplate,
        Operation::DeactivatePersistentForwardingAddress,
    ] {
        let state = parsed(operation).advance(DispatchEvent::Outcome(Ok(Ok(ClientReply::Done))));
        assert_eq!(answer(state), Ok(b"{}".to_vec()));
    }
}

#[test]
fn client_failures_are_coded() {
    let call = || parsed(Operation::TransferStatus);
    let missing = CodedError::new("INVALID_HANDLE", "unknown asset-movement-client handle");
    let state = call().advance(DispatchEvent::Outcome(Err(missing)));
    assert_eq!(answer(state).unwrap_err().code, "INVALID_HANDLE");
    let failure = AnchorClientError::Service { status: 500 };
    let state = call().advance(DispatchEvent::Outcome(Ok(Err(failure))));
    assert_eq!(
        answer(state).unwrap_err(),
        CodedError::new("SERVICE", "anchor request failed (status 500)")
    );
}

#[test]
fn an_unwritable_payload_is_an_encode_error() {
    let state = parsed(Operation::TransferStatus)
        .advance(DispatchEvent::Outcome(Ok(Ok(ClientReply::Payload(1)))))
        .advance(DispatchEvent::Written(Err(broken())));
    assert_eq!(answer(state).unwrap_err(), CodedError::new("ENCODE", &broken().to_string()));
}

#[test]
fn what_is_not_awaited_leads_nowhere() {
    let state = State::ReadProvider { operation: Operation::ListTransactions }
        .advance(DispatchEvent::Written(Ok(Vec::new())))
        .advance(DispatchEvent::Provider(Ok(document())));
    assert!(matches!(state, Dispatch::ReadProvider { operation: Operation::ListTransactions }));
    let state = parsed(Operation::ListTransactions)
        .advance(DispatchEvent::Request(transfer(Json::Null)));
    assert!(matches!(state, Dispatch::ParseRequest { .. }));
    let state = parsed(Operation::TransferStatus)
        .advance(DispatchEvent::Outcome(Ok(Ok(ClientReply::Done))));
    assert!(matches!(state, Dispatch::Call { .. }));
}

#[test]
fn an_answer_is_final() {
    let state = State::Answered { answer: Ok(b"1".to_vec()) }
        .advance(some("x"))
        .advance(DispatchEvent::Written(Ok(b"2".to_vec())))
        .advance(DispatchEvent::Outcome(Ok(Ok(ClientReply::Payload(3)))));
    assert_eq!(answer(state), Ok(b"1".to_vec()));
}

fn called(operation: Operation, document: RequestDocument) -> ClientCall {
    match parsed(operation).advance(DispatchEvent::Request(document)) {
        Dispatch::Call { call, .. } => call,
        other => panic!("{:?}", other),
    }
}

#[test]
fn each_operation_makes_its_own_call() {
    let page = PaginationDto::default();
    let number = || Json::from_slice(b"5").unwrap();
    assert!(matches!(
        called(Operation::SimulateTransfer, transfer(number())),
        ClientCall::SimulateTransfer(request) if request.value == "5"
    ));
    assert!(matches!(
        called(Operation::InitiateTransfer, transfer(number())),
        ClientCall::InitiateTransfer(_)
    ));
    let execute = ExecuteReqDto { id: "i".to_string(), instruction: Json::Null };
    assert!(matches!(
        called(Operation::ExecuteTransfer, RequestDocument::Execute(Ok(execute))),
        ClientCall::ExecuteTransfer(request) if request.id == "i"
    ));
    let session = InitiateTemplateDto { asset: usd(), location: "l".to_string() };
    assert!(matches!(
        called(
            Operation::InitiatePersistentForwardingTemplate,
            RequestDocument::InitiateTemplate(Ok(session))
        ),
        ClientCall::InitiatePersistentForwardingTemplate(_)
    ));
    let template = CreateTemplateDto {
        asset: None,
        location: None,
        address: None,
        id: None,
        data: Some(Json::Null),
    };
    assert!(matches!(
        called(
            Operation::CreatePersistentForwardingTemplate,
            RequestDocument::CreateTemplate(Ok(template))
        ),
        ClientCall::CreatePersistentForwardingTemplate(_)
    ));
    let templates = ListTemplatesDto { asset: None, location: None };
    assert!(matches!(
        called(
            Operation::ListForwardingAddressTemplates,
            RequestDocument::ListTemplates(Ok(templates))
        ),
        ClientCall::ListForwardingAddressTemplates(_)
    ));
    let address = CreateAddressDto {
        source_location: "s".to_string(),
        asset: usd(),
        outgoing_rail: None,
        incoming_rail: None,
        destination_location: None,
        destination_address: None,
        persistent_address_template_id: Some("t".to_string()),
    };
    assert!(matches!(
        called(
            Operation::CreatePersistentForwardingAddress,
            RequestDocument::CreateAddress(Ok(address))
        ),
        ClientCall::CreatePersistentForwardingAddress(_)
    ));
    let addresses = ListAddressesDto { search: None, pagination: page };
    assert!(matches!(
        called(Operation::ListForwardingAddresses, RequestDocument::ListAddresses(Ok(addresses))),
        ClientCall::ListForwardingAddresses(_)
    ));
    let transactions = ListTransactionsDto {
        persistent_addresses: None,
        from: None,
        to: None,
        transactions: None,
        pagination: page,
    };
    assert!(matches!(
        called(Operation::ListTransactions, RequestDocument::ListTransactions(Ok(transactions))),
        ClientCall::ListTransactions(_)
    ));
    let share = || ShareKycDto { attributes: "pem".to_string(), tos_agreement: None };
    assert!(matches!(
        called(Operation::ShareKycAttributes, RequestDocument::ShareKyc(Ok(share()))),
        ClientCall::ShareKycAttributes(request) if request.attributes == "pem"
    ));
    let options = AwaitOptions { interval_ms: 3, timeout_ms: 4 };
    assert!(matches!(
        called(
            Operation::ShareKycAttributesAndWait(options),
            RequestDocument::ShareKyc(Ok(share()))
        ),
        ClientCall::ShareKycAttributesAndWait(_, AwaitOptions { interval_ms: 3, timeout_ms: 4 })
    ));
}
