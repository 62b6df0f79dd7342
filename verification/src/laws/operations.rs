use vstd::prelude::*;

use crate::coded::CodedError;
use crate::dispatch::{
    ClientCall, ClientReply, Dispatch, DispatchEvent, Operation, RequestDocument,
};
use crate::error::AnchorClientError;
use crate::laws::failures::{acknowledges, coded_as, lemma_codes_tell, refused, unwritten};
use crate::laws::providers::same_provider;
use crate::laws::requests::{
    is_address, is_address_listing, is_session, is_template, is_transaction_listing, is_transfer,
    lemma_address, lemma_nameable, lemma_template, lemma_transfer, no_address, no_template,
    no_transfer, unnamed,
};
use crate::provider::ProviderDto;

verus! {

/// Whether `document` is of the kind that `operation` takes.
pub open spec fn fits(operation: Operation, document: RequestDocument) -> bool {
    ||| operation is SimulateTransfer && document is Transfer
    ||| operation is InitiateTransfer && document is Transfer
    ||| operation is ExecuteTransfer && document is Execute
    ||| operation is InitiatePersistentForwardingTemplate && document is InitiateTemplate
    ||| operation is CreatePersistentForwardingTemplate && document is CreateTemplate
    ||| operation is ListForwardingAddressTemplates && document is ListTemplates
    ||| operation is CreatePersistentForwardingAddress && document is CreateAddress
    ||| operation is ListForwardingAddresses && document is ListAddresses
    ||| operation is ListTransactions && document is ListTransactions
    ||| operation is ShareKycAttributes && document is ShareKyc
    ||| operation is ShareKycAttributesAndWait && document is ShareKyc
}

/// Whether `call` does what `operation` is for, with the request that `document` describes.
pub open spec fn carried_out(
    operation: Operation,
    document: RequestDocument,
    call: ClientCall,
) -> bool {
    match (call, document) {
        (
            ClientCall::SimulateTransfer(request),
            RequestDocument::Transfer(Ok(dto)),
        ) => operation is SimulateTransfer && is_transfer(request, dto),
        (
            ClientCall::InitiateTransfer(request),
            RequestDocument::Transfer(Ok(dto)),
        ) => operation is InitiateTransfer && is_transfer(request, dto),
        (
            ClientCall::ExecuteTransfer(request),
            RequestDocument::Execute(Ok(dto)),
        ) => operation is ExecuteTransfer && request.id == dto.id && request.instruction
            == dto.instruction,
        (
            ClientCall::InitiatePersistentForwardingTemplate(request),
            RequestDocument::InitiateTemplate(Ok(dto)),
        ) => operation is InitiatePersistentForwardingTemplate && is_session(request, dto),
        (
            ClientCall::CreatePersistentForwardingTemplate(request),
            RequestDocument::CreateTemplate(Ok(dto)),
        ) => operation is CreatePersistentForwardingTemplate && is_template(request, dto),
        (
            ClientCall::ListForwardingAddressTemplates(request),
            RequestDocument::ListTemplates(Ok(dto)),
        ) => operation is ListForwardingAddressTemplates && request.asset == dto.asset
            && request.location == dto.location,
        (
            ClientCall::CreatePersistentForwardingAddress(request),
            RequestDocument::CreateAddress(Ok(dto)),
        ) => operation is CreatePersistentForwardingAddress && is_address(request, dto),
        (
            ClientCall::ListForwardingAddresses(request),
            RequestDocument::ListAddresses(Ok(dto)),
        ) => operation is ListForwardingAddresses && is_address_listing(request, dto),
        (
            ClientCall::ListTransactions(request),
            RequestDocument::ListTransactions(Ok(dto)),
        ) => operation is ListTransactions && is_transaction_listing(request, dto),
        (
            ClientCall::ShareKycAttributes(request),
            RequestDocument::ShareKyc(Ok(dto)),
        ) => operation is ShareKycAttributes && request.attributes == dto.attributes
            && request.tos_agreement == dto.tos_agreement,
        (
            ClientCall::ShareKycAttributesAndWait(request, options),
            RequestDocument::ShareKyc(Ok(dto)),
        ) => operation == Operation::ShareKycAttributesAndWait(options) && request.attributes
            == dto.attributes && request.tos_agreement == dto.tos_agreement,
        _ => false,
    }
}

/// Whether `error` tells what is wrong with `document`: that it could not be read, or what it lacks.
/// Nothing is wrong with a listing, an execution or a sharing that was read.
pub open spec fn wrong_with(document: RequestDocument, error: CodedError) -> bool {
    match document {
        RequestDocument::Transfer(Ok(dto)) => no_transfer(error, dto),
        RequestDocument::Transfer(Err(reason)) => refused(error, reason),
        RequestDocument::Execute(Err(reason)) => refused(error, reason),
        RequestDocument::InitiateTemplate(Ok(dto)) => unnamed(error, dto.asset@),
        RequestDocument::InitiateTemplate(Err(reason)) => refused(error, reason),
        RequestDocument::CreateTemplate(Ok(dto)) => no_template(error, dto),
        RequestDocument::CreateTemplate(Err(reason)) => refused(error, reason),
        RequestDocument::ListTemplates(Err(reason)) => refused(error, reason),
        RequestDocument::CreateAddress(Ok(dto)) => no_address(error, dto),
        RequestDocument::CreateAddress(Err(reason)) => refused(error, reason),
        RequestDocument::ListAddresses(Err(reason)) => refused(error, reason),
        RequestDocument::ListTransactions(Err(reason)) => refused(error, reason),
        RequestDocument::ShareKyc(Err(reason)) => refused(error, reason),
        _ => false,
    }
}

proof fn lemma_makes(operation: Operation, document: RequestDocument, call: ClientCall)
    requires
        operation.makes(document, call),
    ensures
        carried_out(operation, document, call),
        fits(operation, document),
{
    match (document, call) {
        (RequestDocument::Transfer(Ok(dto)), ClientCall::SimulateTransfer(request)) => {
            lemma_transfer(dto, Ok(request));
        },
        (RequestDocument::Transfer(Ok(dto)), ClientCall::InitiateTransfer(request)) => {
            lemma_transfer(dto, Ok(request));
        },
        (
            RequestDocument::CreateTemplate(Ok(dto)),
            ClientCall::CreatePersistentForwardingTemplate(request),
        ) => {
            lemma_template(dto, Ok(request));
        },
        (
            RequestDocument::CreateAddress(Ok(dto)),
            ClientCall::CreatePersistentForwardingAddress(request),
        ) => {
            lemma_address(dto, Ok(request));
        },
        _ => {},
    }
}

proof fn lemma_rejects(operation: Operation, document: RequestDocument, error: CodedError)
    requires
        operation.rejects(document, error),
    ensures
        wrong_with(document, error),
        fits(operation, document),
{
    match document {
        RequestDocument::Transfer(Ok(dto)) => lemma_transfer(dto, Err(error)),
        RequestDocument::InitiateTemplate(Ok(dto)) => lemma_nameable(dto.asset@),
        RequestDocument::CreateTemplate(Ok(dto)) => lemma_template(dto, Err(error)),
        RequestDocument::CreateAddress(Ok(dto)) => lemma_address(dto, Err(error)),
        _ => {},
    }
}

/// A document is carried out as the operation it was given for, or what is wrong with it is told; a
/// document of another kind is neither.
pub proof fn law_a_document_is_carried_out_as_its_operation(
    operation: Operation,
    document: RequestDocument,
    call: Option<Result<ClientCall, CodedError>>,
)
    requires
        call_ensures(Operation::call_by_document, (operation, document), call),
    ensures
        call is Some <==> fits(operation, document),
        call matches Some(Ok(made)) ==> carried_out(operation, document, made),
        call matches Some(Err(error)) ==> wrong_with(document, error),
{
    if let Some(Ok(made)) = call {
        lemma_makes(operation, document, made);
    }
    if let Some(Err(error)) = call {
        lemma_rejects(operation, document, error);
    }
}

/// Simulating and initiating one document ask for one transfer: a simulated transfer is the one that
/// would be initiated.
pub proof fn law_a_simulated_transfer_is_the_one_initiated(
    document: RequestDocument,
    simulated: Option<Result<ClientCall, CodedError>>,
    initiated: Option<Result<ClientCall, CodedError>>,
)
    requires
        call_ensures(
            Operation::call_by_document,
            (Operation::SimulateTransfer, document),
            simulated,
        ),
        call_ensures(
            Operation::call_by_document,
            (Operation::InitiateTransfer, document),
            initiated,
        ),
    ensures
        simulated matches Some(Ok(ClientCall::SimulateTransfer(left))) ==> (
        initiated matches Some(Ok(ClientCall::InitiateTransfer(right))) && left.from == right.from
            && left.to == right.to && left.asset@ == right.asset@ && left.allowed_rails
            == right.allowed_rails),
        simulated matches Some(Ok(_)) <==> initiated matches Some(Ok(_)),
{
}

/// Whether `call` does what `operation` is for, on the id `id`.
pub open spec fn carried_out_on(operation: Operation, id: String, call: ClientCall) -> bool {
    ||| operation is TransferStatus && call == ClientCall::TransferStatus(id)
    ||| operation is DeactivatePersistentForwardingTemplate && call
        == ClientCall::DeactivatePersistentForwardingTemplate(id)
    ||| operation is DeactivatePersistentForwardingAddress && call
        == ClientCall::DeactivatePersistentForwardingAddress(id)
}

/// Whether the argument of `operation` is an id.
pub open spec fn on_id(operation: Operation) -> bool {
    ||| operation is TransferStatus
    ||| operation is DeactivatePersistentForwardingTemplate
    ||| operation is DeactivatePersistentForwardingAddress
}

/// An operation on an id is carried out on that id, and any other gives its argument back.
pub proof fn law_an_id_is_carried_out_as_its_operation(
    operation: Operation,
    id: String,
    call: Result<ClientCall, String>,
)
    requires
        call_ensures(Operation::call_by_id, (operation, id), call),
    ensures
        call is Ok <==> on_id(operation),
        call is Ok ==> carried_out_on(operation, id, call->Ok_0),
        call is Err ==> call->Err_0 == id,
{
}

/// Only deactivations return nothing.
pub proof fn law_only_deactivations_return_nothing(call: ClientCall, void: bool)
    requires
        call_ensures(ClientCall::is_void, (&call,), void),
    ensures
        void <==> call is DeactivatePersistentForwardingTemplate
            || call is DeactivatePersistentForwardingAddress,
{
}

/// Whether an operation is answered with an error of `code` and `message`.
pub open spec fn answered<T>(state: Dispatch<T>, code: Seq<char>, message: Seq<char>) -> bool {
    state matches Dispatch::Answered { answer: Err(error) } && error.code@ == code
        && error.message@ == message
}

/// The provider is read before the argument, and a buffer that cannot be read ends the operation.
pub proof fn law_buffers_are_read_in_turn<T>(
    operation: Operation,
    provider: String,
    text: Option<String>,
    first: Dispatch<T>,
    second: Dispatch<T>,
)
    requires
        call_ensures(
            Dispatch::<T>::advance,
            (Dispatch::ReadProvider { operation }, DispatchEvent::Text(text)),
            first,
        ),
        call_ensures(
            Dispatch::<T>::advance,
            (Dispatch::ReadArgument { operation, provider }, DispatchEvent::Text(text)),
            second,
        ),
    ensures
        text is Some ==> first == (Dispatch::<T>::ReadArgument { operation, provider: text->0 }),
        text is Some ==> second == (Dispatch::<T>::ParseProvider {
            operation,
            provider,
            argument: text->0,
        }),
        text is None ==> answered(first, "INVALID_INPUT"@, "unreadable argument buffer"@),
        text is None ==> answered(second, "INVALID_INPUT"@, "unreadable argument buffer"@),
{
}

/// The provider that goes on is the one the document means; an id goes to the client at once, and any
/// other argument is still to be read.
pub proof fn law_the_provider_goes_on_as_its_document_means<T>(
    operation: Operation,
    provider: String,
    argument: String,
    read: Result<ProviderDto, serde_json::Error>,
    next: Dispatch<T>,
)
    requires
        call_ensures(
            Dispatch::<T>::advance,
            (
                Dispatch::ParseProvider { operation, provider, argument },
                DispatchEvent::Provider(read),
            ),
            next,
        ),
    ensures
        read is Ok && on_id(operation) ==> (next matches Dispatch::Call { provider: meant, call }
            && same_provider(read->Ok_0, meant) && carried_out_on(operation, argument, call)),
        read is Ok && !on_id(operation) ==> (next matches Dispatch::ParseRequest {
            operation: same,
            provider: meant,
            argument: kept,
        } && same == operation && same_provider(read->Ok_0, meant) && kept == argument),
        read is Err ==> (next matches Dispatch::Answered { answer: Err(error) } && refused(
            error,
            read->Err_0,
        )),
{
}

/// The client is called with the same provider and what the document describes, or the operation
/// ends with what is wrong with it.
pub proof fn law_the_request_goes_on_as_its_document_says<T>(
    operation: Operation,
    provider: crate::provider::AssetMovementProvider,
    argument: String,
    document: RequestDocument,
    next: Dispatch<T>,
)
    requires
        call_ensures(
            Dispatch::<T>::advance,
            (
                Dispatch::ParseRequest { operation, provider, argument },
                DispatchEvent::Request(document),
            ),
            next,
        ),
    ensures
        match next {
            Dispatch::Call { provider: same, call } => same == provider && carried_out(
                operation,
                document,
                call,
            ),
            Dispatch::Answered { answer: Err(error) } => fits(operation, document) && wrong_with(
                document,
                error,
            ),
            Dispatch::ParseRequest { operation: same, provider: kept, argument: waiting } => !fits(
                operation,
                document,
            ) && same == operation && kept == provider && waiting == argument,
            _ => false,
        },
{
    if let Dispatch::Call { call, .. } = next {
        if operation.takes(document) {
            lemma_makes(operation, document, call);
        }
    }
    if let Dispatch::Answered { answer: Err(error) } = next {
        if operation.takes(document) {
            lemma_rejects(operation, document, error);
        }
    }
}

/// What the client returned is answered: a payload goes on to be written, a deactivation is
/// acknowledged, a failure is told in full, and a missing handle keeps its error.
pub proof fn law_the_client_is_answered_for<T>(
    provider: crate::provider::AssetMovementProvider,
    call: ClientCall,
    reply: ClientReply<T>,
    failure: AnchorClientError,
    missing: CodedError,
    returned: Dispatch<T>,
    failed: Dispatch<T>,
    unreached: Dispatch<T>,
)
    requires
        call_ensures(
            Dispatch::<T>::advance,
            (Dispatch::Call { provider, call }, DispatchEvent::Outcome(Ok(Ok(reply)))),
            returned,
        ),
        call_ensures(
            Dispatch::<T>::advance,
            (Dispatch::Call { provider, call }, DispatchEvent::Outcome(Ok(Err(failure)))),
            failed,
        ),
        call_ensures(
            Dispatch::<T>::advance,
            (Dispatch::Call { provider, call }, DispatchEvent::Outcome(Err(missing))),
            unreached,
        ),
    ensures
        call is DeactivatePersistentForwardingTemplate
            || call is DeactivatePersistentForwardingAddress ==> (
        returned matches Dispatch::Answered { answer: Ok(bytes) } && acknowledges(bytes@)),
        !(call is DeactivatePersistentForwardingTemplate)
            && !(call is DeactivatePersistentForwardingAddress) ==> match reply {
            ClientReply::Payload(payload) => returned == (Dispatch::Encode { payload }),
            ClientReply::Done => returned == (Dispatch::<T>::Call { provider, call }),
        },
        failed matches Dispatch::Answered { answer: Err(error) } && coded_as(error, failure),
        unreached == (Dispatch::<T>::Answered { answer: Err(missing) }),
{
    if let Dispatch::Answered { answer: Err(error) } = failed {
        lemma_codes_tell(error, failure);
    }
}

/// The payload's own bytes are the answer, or the reason why there are none.
pub proof fn law_the_payload_is_the_answer<T>(
    payload: T,
    written: Result<Vec<u8>, serde_json::Error>,
    next: Dispatch<T>,
)
    requires
        call_ensures(
            Dispatch::<T>::advance,
            (Dispatch::Encode { payload }, DispatchEvent::Written(written)),
            next,
        ),
    ensures
        written is Ok ==> next == (Dispatch::<T>::Answered { answer: Ok(written->Ok_0) }),
        written is Err ==> (next matches Dispatch::Answered { answer: Err(error) } && unwritten(
            error,
            written->Err_0,
        )),
{
}

/// Nothing but the outcome of the step to be done changes anything.
pub proof fn law_nothing_else_changes_anything<T>(
    state: Dispatch<T>,
    event: DispatchEvent<T>,
    next: Dispatch<T>,
)
    requires
        call_ensures(Dispatch::<T>::advance, (state, event), next),
        match state {
            Dispatch::ReadProvider { .. } => !(event is Text),
            Dispatch::ReadArgument { .. } => !(event is Text),
            Dispatch::ParseProvider { .. } => !(event is Provider),
            Dispatch::ParseRequest { .. } => !(event is Request),
            Dispatch::Call { .. } => !(event is Outcome),
            Dispatch::Encode { .. } => !(event is Written),
            Dispatch::Answered { .. } => true,
        },
    ensures
        next == state,
{
}

} // verus!
