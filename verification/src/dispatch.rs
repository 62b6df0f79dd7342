use vstd::prelude::*;

use crate::coded::{
    codes, encode_ack, encoded, encodes_written, rejects_json, unreadable, CodedError,
};
use crate::provider::{means, parse_provider, AssetMovementProvider, ProviderDto};
use crate::request::{
    create_address_request, create_template_request, execute_request, initiate_template_request,
    list_addresses_request, list_templates_request, list_transactions_request, reads_address,
    reads_address_listing, reads_execution, reads_sharing, reads_template, reads_template_listing,
    reads_template_session, reads_transaction_listing, reads_transfer,
    share_kyc_attributes_request, transfer_request, CreateAddressDto,
    CreatePersistentForwardingAddressRequest, CreatePersistentForwardingTemplateRequest,
    CreateTemplateDto, ExecuteReqDto, ExecuteTransferRequest,
    InitiatePersistentForwardingTemplateRequest, InitiateTemplateDto, ListAddressesDto,
    ListForwardingAddressTemplatesRequest, ListForwardingAddressesRequest, ListTemplatesDto,
    ListTransactionsDto, ListTransactionsRequest, ShareKycDto, ShareKycRequest, TransferReqDto,
    TransferRequest,
};
use crate::session::{with_session, AwaitOptions, Reached};
use crate::value::empty_object_bytes;

verus! {

/// An operation on a provider that takes a second argument.
#[derive(Debug, Clone, Copy, PartialEq, Eq)]
pub enum Operation {
    /// Simulate a transfer.
    SimulateTransfer,
    /// Initiate a transfer.
    InitiateTransfer,
    /// Execute a pull instruction for a transfer.
    ExecuteTransfer,
    /// Tell the status of a transfer.
    TransferStatus,
    /// Open a persistent-forwarding template session.
    InitiatePersistentForwardingTemplate,
    /// Create a persistent-forwarding template.
    CreatePersistentForwardingTemplate,
    /// List persistent-forwarding templates.
    ListForwardingAddressTemplates,
    /// Create a persistent-forwarding address.
    CreatePersistentForwardingAddress,
    /// List persistent-forwarding addresses.
    ListForwardingAddresses,
    /// Deactivate a persistent-forwarding template.
    DeactivatePersistentForwardingTemplate,
    /// Deactivate a persistent-forwarding address.
    DeactivatePersistentForwardingAddress,
    /// List transactions.
    ListTransactions,
    /// Share KYC attributes.
    ShareKycAttributes,
    /// Share KYC attributes and poll until the provider has taken them.
    ShareKycAttributesAndWait(AwaitOptions),
}

/// A request argument, read as the document that its operation takes.
#[derive(Debug)]
pub enum RequestDocument {
    /// Of a transfer.
    Transfer(Result<TransferReqDto, serde_json::Error>),
    /// Of an execution.
    Execute(Result<ExecuteReqDto, serde_json::Error>),
    /// Of a template session.
    InitiateTemplate(Result<InitiateTemplateDto, serde_json::Error>),
    /// Of a template.
    CreateTemplate(Result<CreateTemplateDto, serde_json::Error>),
    /// Of a listing of templates.
    ListTemplates(Result<ListTemplatesDto, serde_json::Error>),
    /// Of a forwarding address.
    CreateAddress(Result<CreateAddressDto, serde_json::Error>),
    /// Of a listing of forwarding addresses.
    ListAddresses(Result<ListAddressesDto, serde_json::Error>),
    /// Of a listing of transactions.
    ListTransactions(Result<ListTransactionsDto, serde_json::Error>),
    /// Of shared KYC attributes.
    ShareKyc(Result<ShareKycDto, serde_json::Error>),
}

/// A call on the client, with what it is called with besides the provider.
#[derive(Debug, PartialEq, Eq)]
pub enum ClientCall {
    /// Simulate a transfer.
    SimulateTransfer(TransferRequest),
    /// Initiate a transfer.
    InitiateTransfer(TransferRequest),
    /// Execute a pull instruction for a transfer.
    ExecuteTransfer(ExecuteTransferRequest),
    /// Tell the status of the transfer with this id.
    TransferStatus(String),
    /// Open a persistent-forwarding template session.
    InitiatePersistentForwardingTemplate(InitiatePersistentForwardingTemplateRequest),
    /// Create a persistent-forwarding template.
    CreatePersistentForwardingTemplate(CreatePersistentForwardingTemplateRequest),
    /// List persistent-forwarding templates.
    ListForwardingAddressTemplates(ListForwardingAddressTemplatesRequest),
    /// Create a persistent-forwarding address.
    CreatePersistentForwardingAddress(CreatePersistentForwardingAddressRequest),
    /// List persistent-forwarding addresses.
    ListForwardingAddresses(ListForwardingAddressesRequest),
    /// Deactivate the persistent-forwarding template with this id.
    DeactivatePersistentForwardingTemplate(String),
    /// Deactivate the persistent-forwarding address with this id.
    DeactivatePersistentForwardingAddress(String),
    /// List transactions.
    ListTransactions(ListTransactionsRequest),
    /// Share KYC attributes.
    ShareKycAttributes(ShareKycRequest),
    /// Share KYC attributes and poll until the provider has taken them.
    ShareKycAttributesAndWait(ShareKycRequest, AwaitOptions),
}

impl ClientCall {
    /// Whether the client returns nothing for this call.
    pub open spec fn returns_nothing(self) -> bool {
        self is DeactivatePersistentForwardingTemplate
            || self is DeactivatePersistentForwardingAddress
    }

    /// Whether the client returns nothing for this call.
    pub fn is_void(&self) -> (void: bool)
        ensures
            void == self.returns_nothing(),
    {
        match self {
            ClientCall::DeactivatePersistentForwardingTemplate(_) => true,
            ClientCall::DeactivatePersistentForwardingAddress(_) => true,
            _ => false,
        }
    }
}

impl Operation {
    /// The call of an operation whose argument is an id, on the id `id`; [`None`] for an operation
    /// whose argument is a document.
    pub open spec fn call_on(self, id: String) -> Option<ClientCall> {
        match self {
            Operation::TransferStatus => Some(ClientCall::TransferStatus(id)),
            Operation::DeactivatePersistentForwardingTemplate => Some(
                ClientCall::DeactivatePersistentForwardingTemplate(id),
            ),
            Operation::DeactivatePersistentForwardingAddress => Some(
                ClientCall::DeactivatePersistentForwardingAddress(id),
            ),
            _ => None,
        }
    }

    /// Whether this operation takes a document of the kind of `document`.
    pub open spec fn takes(self, document: RequestDocument) -> bool {
        match self {
            Operation::SimulateTransfer | Operation::InitiateTransfer => document is Transfer,
            Operation::ExecuteTransfer => document is Execute,
            Operation::InitiatePersistentForwardingTemplate => document is InitiateTemplate,
            Operation::CreatePersistentForwardingTemplate => document is CreateTemplate,
            Operation::ListForwardingAddressTemplates => document is ListTemplates,
            Operation::CreatePersistentForwardingAddress => document is CreateAddress,
            Operation::ListForwardingAddresses => document is ListAddresses,
            Operation::ListTransactions => document is ListTransactions,
            Operation::ShareKycAttributes | Operation::ShareKycAttributesAndWait(_) => document
                is ShareKyc,
            Operation::TransferStatus | Operation::DeactivatePersistentForwardingTemplate
            | Operation::DeactivatePersistentForwardingAddress => false,
        }
    }

    /// Whether `document` makes this operation the call `call`.
    pub open spec fn makes(self, document: RequestDocument, call: ClientCall) -> bool {
        match (self, document, call) {
            (
                Operation::SimulateTransfer,
                RequestDocument::Transfer(read),
                ClientCall::SimulateTransfer(request),
            ) => reads_transfer(read, Ok(request)),
            (
                Operation::InitiateTransfer,
                RequestDocument::Transfer(read),
                ClientCall::InitiateTransfer(request),
            ) => reads_transfer(read, Ok(request)),
            (
                Operation::ExecuteTransfer,
                RequestDocument::Execute(read),
                ClientCall::ExecuteTransfer(request),
            ) => reads_execution(read, Ok(request)),
            (
                Operation::InitiatePersistentForwardingTemplate,
                RequestDocument::InitiateTemplate(read),
                ClientCall::InitiatePersistentForwardingTemplate(request),
            ) => reads_template_session(read, Ok(request)),
            (
                Operation::CreatePersistentForwardingTemplate,
                RequestDocument::CreateTemplate(read),
                ClientCall::CreatePersistentForwardingTemplate(request),
            ) => reads_template(read, Ok(request)),
            (
                Operation::ListForwardingAddressTemplates,
                RequestDocument::ListTemplates(read),
                ClientCall::ListForwardingAddressTemplates(request),
            ) => reads_template_listing(read, Ok(request)),
            (
                Operation::CreatePersistentForwardingAddress,
                RequestDocument::CreateAddress(read),
                ClientCall::CreatePersistentForwardingAddress(request),
            ) => reads_address(read, Ok(request)),
            (
                Operation::ListForwardingAddresses,
                RequestDocument::ListAddresses(read),
                ClientCall::ListForwardingAddresses(request),
            ) => reads_address_listing(read, Ok(request)),
            (
                Operation::ListTransactions,
                RequestDocument::ListTransactions(read),
                ClientCall::ListTransactions(request),
            ) => reads_transaction_listing(read, Ok(request)),
            (
                Operation::ShareKycAttributes,
                RequestDocument::ShareKyc(read),
                ClientCall::ShareKycAttributes(request),
            ) => reads_sharing(read, Ok(request)),
            (
                Operation::ShareKycAttributesAndWait(wanted),
                RequestDocument::ShareKyc(read),
                ClientCall::ShareKycAttributesAndWait(request, options),
            ) => reads_sharing(read, Ok(request)) && options == wanted,
            _ => false,
        }
    }

    /// Whether `error` tells what is wrong with `document`.
    pub open spec fn rejects(self, document: RequestDocument, error: CodedError) -> bool {
        self.takes(document) && match document {
            RequestDocument::Transfer(read) => reads_transfer(read, Err(error)),
            RequestDocument::Execute(read) => reads_execution(read, Err(error)),
            RequestDocument::InitiateTemplate(read) => reads_template_session(read, Err(error)),
            RequestDocument::CreateTemplate(read) => reads_template(read, Err(error)),
            RequestDocument::ListTemplates(read) => reads_template_listing(read, Err(error)),
            RequestDocument::CreateAddress(read) => reads_address(read, Err(error)),
            RequestDocument::ListAddresses(read) => reads_address_listing(read, Err(error)),
            RequestDocument::ListTransactions(read) => reads_transaction_listing(read, Err(error)),
            RequestDocument::ShareKyc(read) => reads_sharing(read, Err(error)),
        }
    }

    /// The call of this operation on the id `id` where its argument is one; else gives `id` back.
    pub fn call_by_id(self, id: String) -> (call: Result<ClientCall, String>)
        ensures
            match self.call_on(id) {
                Some(made) => call == Ok::<ClientCall, String>(made),
                None => call == Err::<ClientCall, String>(id),
            },
    {
        match self {
            Operation::TransferStatus => Ok(ClientCall::TransferStatus(id)),
            Operation::DeactivatePersistentForwardingTemplate => Ok(
                ClientCall::DeactivatePersistentForwardingTemplate(id),
            ),
            Operation::DeactivatePersistentForwardingAddress => Ok(
                ClientCall::DeactivatePersistentForwardingAddress(id),
            ),
            _ => Err(id),
        }
    }

    /// The call that `document` makes of this operation, or why it makes none; [`None`] for a
    /// document of a kind that this operation does not take.
    pub fn call_by_document(self, document: RequestDocument) -> (call: Option<
        Result<ClientCall, CodedError>,
    >)
        ensures
            match call {
                Some(Ok(call)) => self.makes(document, call),
                Some(Err(error)) => self.rejects(document, error),
                None => !self.takes(document),
            },
    {
        match (self, document) {
            (Operation::SimulateTransfer, RequestDocument::Transfer(read)) => Some(
                match transfer_request(read) {
                    Ok(request) => Ok(ClientCall::SimulateTransfer(request)),
                    Err(error) => Err(error),
                },
            ),
            (Operation::InitiateTransfer, RequestDocument::Transfer(read)) => Some(
                match transfer_request(read) {
                    Ok(request) => Ok(ClientCall::InitiateTransfer(request)),
                    Err(error) => Err(error),
                },
            ),
            (Operation::ExecuteTransfer, RequestDocument::Execute(read)) => Some(
                match execute_request(read) {
                    Ok(request) => Ok(ClientCall::ExecuteTransfer(request)),
                    Err(error) => Err(error),
                },
            ),
            (
                Operation::InitiatePersistentForwardingTemplate,
                RequestDocument::InitiateTemplate(read),
            ) => Some(
                match initiate_template_request(read) {
                    Ok(request) => Ok(ClientCall::InitiatePersistentForwardingTemplate(request)),
                    Err(error) => Err(error),
                },
            ),
            (
                Operation::CreatePersistentForwardingTemplate,
                RequestDocument::CreateTemplate(read),
            ) => Some(
                match create_template_request(read) {
                    Ok(request) => Ok(ClientCall::CreatePersistentForwardingTemplate(request)),
                    Err(error) => Err(error),
                },
            ),
            (Operation::ListForwardingAddressTemplates, RequestDocument::ListTemplates(read)) => Some(
                match list_templates_request(read) {
                    Ok(request) => Ok(ClientCall::ListForwardingAddressTemplates(request)),
                    Err(error) => Err(error),
                },
            ),
            (
                Operation::CreatePersistentForwardingAddress,
                RequestDocument::CreateAddress(read),
            ) => Some(
                match create_address_request(read) {
                    Ok(request) => Ok(ClientCall::CreatePersistentForwardingAddress(request)),
                    Err(error) => Err(error),
                },
            ),
            (Operation::ListForwardingAddresses, RequestDocument::ListAddresses(read)) => Some(
                match list_addresses_request(read) {
                    Ok(request) => Ok(ClientCall::ListForwardingAddresses(request)),
                    Err(error) => Err(error),
                },
            ),
            (Operation::ListTransactions, RequestDocument::ListTransactions(read)) => Some(
                match list_transactions_request(read) {
                    Ok(request) => Ok(ClientCall::ListTransactions(request)),
                    Err(error) => Err(error),
                },
            ),
            (Operation::ShareKycAttributes, RequestDocument::ShareKyc(read)) => Some(
                match share_kyc_attributes_request(read) {
                    Ok(request) => Ok(ClientCall::ShareKycAttributes(request)),
                    Err(error) => Err(error),
                },
            ),
            (Operation::ShareKycAttributesAndWait(options), RequestDocument::ShareKyc(read)) => Some(
                match share_kyc_attributes_request(read) {
                    Ok(request) => Ok(ClientCall::ShareKycAttributesAndWait(request, options)),
                    Err(error) => Err(error),
                },
            ),
            _ => None,
        }
    }
}

/// What the client returned: a payload to be written, or nothing.
#[derive(Debug, PartialEq, Eq)]
pub enum ClientReply<T> {
    /// A payload.
    Payload(T),
    /// Nothing.
    Done,
}

/// How far an operation has come, and with it what is to be done next.
#[derive(Debug)]
pub enum Dispatch<T> {
    /// Read the provider argument.
    ReadProvider {
        /// The operation.
        operation: Operation,
    },
    /// Read the second argument.
    ReadArgument {
        /// The operation.
        operation: Operation,
        /// The provider argument.
        provider: String,
    },
    /// Read the provider argument as a provider document.
    ParseProvider {
        /// The operation.
        operation: Operation,
        /// The provider argument.
        provider: String,
        /// The second argument.
        argument: String,
    },
    /// Read the second argument as the document that the operation takes.
    ParseRequest {
        /// The operation.
        operation: Operation,
        /// The provider.
        provider: AssetMovementProvider,
        /// The second argument.
        argument: String,
    },
    /// Call the stored client.
    Call {
        /// The provider.
        provider: AssetMovementProvider,
        /// The call.
        call: ClientCall,
    },
    /// Write the payload as JSON.
    Encode {
        /// The payload.
        payload: T,
    },
    /// Answer with JSON bytes, or with a coded error.
    Answered {
        /// The answer.
        answer: Result<Vec<u8>, CodedError>,
    },
}

/// What came of the last step.
#[derive(Debug)]
pub enum DispatchEvent<T> {
    /// An argument was read, or its buffer is unreadable.
    Text(Option<String>),
    /// The provider argument was read as a provider document.
    Provider(Result<ProviderDto, serde_json::Error>),
    /// The second argument was read as a request document.
    Request(RequestDocument),
    /// The stored client was called.
    Outcome(Reached<ClientReply<T>>),
    /// The payload was written.
    Written(Result<Vec<u8>, serde_json::Error>),
}

impl<T> Dispatch<T> {
    /// Whether this answers with an error for an unreadable buffer.
    pub open spec fn answers_unreadable(self) -> bool {
        self matches Dispatch::Answered { answer: Err(error) } && error.says(
            "INVALID_INPUT"@,
            "unreadable argument buffer"@,
        )
    }

    /// Whether `next` is where `event` leads from here. An event that is not the outcome of the
    /// step to be done leads nowhere.
    pub open spec fn advances(self, event: DispatchEvent<T>, next: Self) -> bool {
        match (self, event) {
            (Dispatch::ReadProvider { operation }, DispatchEvent::Text(text)) => match text {
                Some(provider) => next == (Dispatch::<T>::ReadArgument { operation, provider }),
                None => next.answers_unreadable(),
            },
            (
                Dispatch::ReadArgument { operation, provider },
                DispatchEvent::Text(text),
            ) => match text {
                Some(argument) => next == (Dispatch::<T>::ParseProvider {
                    operation,
                    provider,
                    argument,
                }),
                None => next.answers_unreadable(),
            },
            (
                Dispatch::ParseProvider { operation, argument, .. },
                DispatchEvent::Provider(read),
            ) => match read {
                Ok(dto) => match operation.call_on(argument) {
                    Some(call) => next matches Dispatch::Call { provider, call: made } && means(
                        dto,
                        provider,
                    ) && made == call,
                    None => next matches Dispatch::ParseRequest {
                        operation: same,
                        provider,
                        argument: kept,
                    } && means(dto, provider) && same == operation && kept == argument,
                },
                Err(reason) => next matches Dispatch::Answered { answer: Err(error) }
                    && rejects_json(error, reason),
            },
            (
                Dispatch::ParseRequest { operation, provider, .. },
                DispatchEvent::Request(document),
            ) => if operation.takes(document) {
                match next {
                    Dispatch::Call { provider: same, call } => same == provider && operation.makes(
                        document,
                        call,
                    ),
                    Dispatch::Answered { answer: Err(error) } => operation.rejects(document, error),
                    _ => false,
                }
            } else {
                next == self
            },
            (Dispatch::Call { call, .. }, DispatchEvent::Outcome(reached)) => match reached {
                Ok(Ok(reply)) => if call.returns_nothing() {
                    next matches Dispatch::Answered { answer: Ok(bytes) } && bytes@
                        == empty_object_bytes()
                } else {
                    match reply {
                        ClientReply::Payload(payload) => next == (Dispatch::Encode { payload }),
                        ClientReply::Done => next == self,
                    }
                },
                Ok(Err(failure)) => next matches Dispatch::Answered { answer: Err(error) } && codes(
                    error,
                    failure,
                ),
                Err(missing) => next == (Dispatch::<T>::Answered { answer: Err(missing) }),
            },
            (Dispatch::Encode { .. }, DispatchEvent::Written(written)) => {
                next matches Dispatch::Answered { answer } && encodes_written(written, answer)
            },
            _ => next == self,
        }
    }

    /// Where `event` leads from here.
    pub fn advance(self, event: DispatchEvent<T>) -> (next: Self)
        ensures
            self.advances(event, next),
    {
        match (self, event) {
            (Dispatch::ReadProvider { operation }, DispatchEvent::Text(text)) => match text {
                Some(provider) => Dispatch::ReadArgument { operation, provider },
                None => Dispatch::Answered { answer: Err(unreadable()) },
            },
            (
                Dispatch::ReadArgument { operation, provider },
                DispatchEvent::Text(text),
            ) => match text {
                Some(argument) => Dispatch::ParseProvider { operation, provider, argument },
                None => Dispatch::Answered { answer: Err(unreadable()) },
            },
            (
                Dispatch::ParseProvider { operation, argument, .. },
                DispatchEvent::Provider(read),
            ) => match parse_provider(read) {
                Ok(provider) => match operation.call_by_id(argument) {
                    Ok(call) => Dispatch::Call { provider, call },
                    Err(argument) => Dispatch::ParseRequest { operation, provider, argument },
                },
                Err(error) => Dispatch::Answered { answer: Err(error) },
            },
            (
                Dispatch::ParseRequest { operation, provider, argument },
                DispatchEvent::Request(document),
            ) => match operation.call_by_document(document) {
                Some(Ok(call)) => Dispatch::Call { provider, call },
                Some(Err(error)) => Dispatch::Answered { answer: Err(error) },
                None => Dispatch::ParseRequest { operation, provider, argument },
            },
            (
                Dispatch::Call { provider, call },
                DispatchEvent::Outcome(reached),
            ) => match with_session(reached) {
                Ok(reply) => if call.is_void() {
                    Dispatch::Answered { answer: encode_ack() }
                } else {
                    match reply {
                        ClientReply::Payload(payload) => Dispatch::Encode { payload },
                        ClientReply::Done => Dispatch::Call { provider, call },
                    }
                },
                Err(error) => Dispatch::Answered { answer: Err(error) },
            },
            (Dispatch::Encode { .. }, DispatchEvent::Written(written)) => Dispatch::Answered {
                answer: encoded(written),
            },
            (state, _) => state,
        }
    }
}

impl<T> Dispatch<T> {
    /// How many steps lie behind.
    pub open spec fn rank(self) -> int {
        match self {
            Dispatch::ReadProvider { .. } => 0,
            Dispatch::ReadArgument { .. } => 1,
            Dispatch::ParseProvider { .. } => 2,
            Dispatch::ParseRequest { .. } => 3,
            Dispatch::Call { .. } => 4,
            Dispatch::Encode { .. } => 5,
            Dispatch::Answered { .. } => 6,
        }
    }

    /// Whether `event` is an outcome of the step to be done.
    pub open spec fn awaits(self, event: DispatchEvent<T>) -> bool {
        match self {
            Dispatch::ReadProvider { .. } | Dispatch::ReadArgument { .. } => event is Text,
            Dispatch::ParseProvider { .. } => event is Provider,
            Dispatch::ParseRequest { operation, .. } => event matches DispatchEvent::Request(
                document,
            ) && operation.takes(document),
            Dispatch::Call { call, .. } => event matches DispatchEvent::Outcome(reached) && (
            reached matches Ok(Ok(ClientReply::Done)) ==> call.returns_nothing()),
            Dispatch::Encode { .. } => event is Written,
            Dispatch::Answered { .. } => false,
        }
    }
}

/// Whether `states` is what `events` lead through, one after the other.
pub open spec fn runs<T>(states: Seq<Dispatch<T>>, events: Seq<DispatchEvent<T>>) -> bool {
    &&& states.len() == events.len() + 1
    &&& forall|i: int|
        0 <= i < events.len() ==> states[i].advances(#[trigger] events[i], states[i + 1])
}

/// Whether `text` is an argument that was read.
pub open spec fn was_read<T>(events: Seq<DispatchEvent<T>>, text: String) -> bool {
    events.contains(DispatchEvent::Text(Some(text)))
}

/// Whether a provider document that was read means `provider`.
pub open spec fn was_meant<T>(
    events: Seq<DispatchEvent<T>>,
    provider: AssetMovementProvider,
) -> bool {
    exists|dto: ProviderDto|
        events.contains(DispatchEvent::Provider(Ok(dto))) && #[trigger] means(dto, provider)
}

/// Whether `call` is that of `operation` on an id that was read or for a document that was read.
pub open spec fn was_asked<T>(
    events: Seq<DispatchEvent<T>>,
    operation: Operation,
    call: ClientCall,
) -> bool {
    ||| exists|id: String| #[trigger] was_read(events, id) && operation.call_on(id) == Some(call)
    ||| exists|document: RequestDocument|
        events.contains(DispatchEvent::Request(document)) && #[trigger] operation.makes(
            document,
            call,
        )
}

/// Whether `state` of `operation` rests on `events` alone.
pub open spec fn rests_on<T>(
    operation: Operation,
    state: Dispatch<T>,
    events: Seq<DispatchEvent<T>>,
) -> bool {
    match state {
        Dispatch::ReadProvider { operation: same } => same == operation,
        Dispatch::ReadArgument { operation: same, provider } => same == operation && was_read(
            events,
            provider,
        ),
        Dispatch::ParseProvider { operation: same, provider, argument } => same == operation
            && was_read(events, provider) && was_read(events, argument),
        Dispatch::ParseRequest { operation: same, provider, argument } => same == operation
            && was_meant(events, provider) && was_read(events, argument),
        Dispatch::Call { provider, call } => was_meant(events, provider) && was_asked(
            events,
            operation,
            call,
        ),
        Dispatch::Encode { payload } => events.contains(
            DispatchEvent::Outcome(Ok(Ok(ClientReply::Payload(payload)))),
        ),
        Dispatch::Answered { answer } => match answer {
            Ok(bytes) => bytes@ == empty_object_bytes() || events.contains(
                DispatchEvent::Written(Ok(bytes)),
            ),
            Err(_) => true,
        },
    }
}

/// What rests on some events rests on more.
proof fn lemma_rests_on_more<T>(
    operation: Operation,
    state: Dispatch<T>,
    events: Seq<DispatchEvent<T>>,
    event: DispatchEvent<T>,
)
    requires
        rests_on(operation, state, events),
    ensures
        rests_on(operation, state, events.push(event)),
{
    let more = events.push(event);
    assert forall|old: DispatchEvent<T>| events.contains(old) implies more.contains(old) by {
        let i = choose|i: int| 0 <= i < events.len() && events[i] == old;
        assert(more[i] == old);
    }
    if let Dispatch::Call { provider, call } = state {
        if exists|id: String| #[trigger] was_read(events, id) && operation.call_on(id) == Some(call) {
            let id = choose|id: String| #[trigger]
                was_read(events, id) && operation.call_on(id) == Some(call);
            assert(was_read(more, id));
        }
    }
}

/// An answer is final.
pub proof fn law_answer_is_final<T>(
    state: Dispatch<T>,
    event: DispatchEvent<T>,
    next: Dispatch<T>,
)
    requires
        state is Answered,
        state.advances(event, next),
    ensures
        next == state,
{
}

/// An outcome of the step to be done leads on, and anything else leads nowhere: an operation is
/// answered after at most six outcomes, and no step is done twice.
pub proof fn law_outcomes_lead_on<T>(
    state: Dispatch<T>,
    event: DispatchEvent<T>,
    next: Dispatch<T>,
)
    requires
        state.advances(event, next),
    ensures
        state.awaits(event) ==> state.rank() < next.rank() <= 6,
        !state.awaits(event) ==> next == state,
{
}

/// Nothing is made up on the way: in every run of an operation, the provider and the request the
/// client is called with are those of the arguments that were read, the payload written is the
/// one the client returned, and bytes answered are those written, or `{}`.
pub proof fn law_every_step_rests_on_what_came_back<T>(
    operation: Operation,
    states: Seq<Dispatch<T>>,
    events: Seq<DispatchEvent<T>>,
)
    requires
        runs(states, events),
        states[0] == (Dispatch::<T>::ReadProvider { operation }),
    ensures
        rests_on(operation, states.last(), events),
    decreases events.len(),
{
    if events.len() > 0 {
        let fewer = events.drop_last();
        let event = events.last();
        let earlier = states.drop_last();
        assert forall|i: int| 0 <= i < fewer.len() implies earlier[i].advances(
            #[trigger] fewer[i],
            earlier[i + 1],
        ) by {
            assert(states[i].advances(events[i], states[i + 1]));
        }
        law_every_step_rests_on_what_came_back(operation, earlier, fewer);
        assert(events =~= fewer.push(event));
        lemma_rests_on_more(operation, earlier.last(), fewer, event);
        assert(events[events.len() - 1] == event);
        assert(events.contains(event));
        assert(earlier.last().advances(events[events.len() - 1], states.last()));
    }
}

/// Whatever is wrong with an argument, the answer is an invalid input.
pub proof fn law_bad_arguments_are_invalid_input<T>(
    state: Dispatch<T>,
    event: DispatchEvent<T>,
    next: Dispatch<T>,
)
    requires
        state.advances(event, next),
        state.rank() < 4,
        next is Answered,
    ensures
        next matches Dispatch::Answered { answer: Err(error) } && error.code@ == "INVALID_INPUT"@,
{
}

/// A document that makes an operation's call is of the kind it takes, and is not rejected.
pub proof fn law_a_document_is_not_both_taken_and_rejected(
    operation: Operation,
    document: RequestDocument,
    call: ClientCall,
    error: CodedError,
)
    requires
        operation.makes(document, call),
    ensures
        operation.takes(document),
        !operation.rejects(document, error),
{
}

} // verus!
