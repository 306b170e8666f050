use crate::message::{ListenHandle, UCode, UMessage, UMessageType, UPayload, UPayloadFormat, UStatus, UUri};
use crate::transport::{TransportCall, UTransport};
use std::time::Duration;
use vstd::prelude::*;

verus! {

/// The RPC method itself: computes the payload, if any, of the response to a
/// request. The transport may invoke it for several requests at once.
pub trait RpcHandler: Send + Sync {
    fn handle_request(&self, request: &UMessage) -> Option<UPayload>;
}

/// Whether a declared response format obliges the handler to return a payload:
/// it does for every format but the "no payload" one.
pub open spec fn payload_required(format: Option<UPayloadFormat>) -> bool {
    match format {
        Some(f) => f != UPayloadFormat::Unspecified,
        None => false,
    }
}

/// The response that a binding of `method`, with response lifetime `ttl` and
/// declared format `format`, builds for `request` when the handler returned
/// `payload`. A missing payload that the format requires yields a
/// contract-violation response (status `Internal`, no payload); every other
/// result is an `OK` response carrying the payload. Either one answers the
/// request's id, goes back to its source and carries `ttl`.
pub open spec fn response_spec(
    method: UUri,
    ttl: Option<Duration>,
    format: Option<UPayloadFormat>,
    request: UMessage,
    payload: Option<UPayload>,
) -> UMessage {
    let violated = payload_required(format) && payload is None;
    UMessage {
        kind: UMessageType::Response,
        id: request.id,
        source: method,
        sink: request.source,
        ttl: ttl,
        commstatus: if violated { UCode::Internal } else { UCode::OK },
        payload: payload,
    }
}

/// Whether `response` reports that the handler broke the payload contract.
pub open spec fn is_contract_violation(response: UMessage) -> bool {
    &&& response.kind == UMessageType::Response
    &&& response.commstatus == UCode::Internal
    &&& response.payload is None
}

/// Server side of an RPC method: a handler bound to one method address of a
/// transport, with the policy used to build its responses.
///
/// The transport is passed to the operations that use it. `close` ends the
/// registration; a binding is only handed out while it holds one.
pub struct RpcServer<H: RpcHandler> {
    method: UUri,
    ttl: Option<Duration>,
    callback: H,
    expected_payload_format: Option<UPayloadFormat>,
    callback_handle: Option<ListenHandle>,
}

impl<H: RpcHandler> RpcServer<H> {
    pub closed spec fn method(&self) -> UUri {
        self.method
    }

    pub closed spec fn ttl(&self) -> Option<Duration> {
        self.ttl
    }

    pub closed spec fn callback(&self) -> H {
        self.callback
    }

    pub closed spec fn expected_payload_format(&self) -> Option<UPayloadFormat> {
        self.expected_payload_format
    }

    /// The registration this binding holds, if any.
    pub closed spec fn registration(&self) -> Option<ListenHandle> {
        self.callback_handle
    }

    /// The response this binding builds for `request` from the handler's `payload`.
    pub open spec fn response_to(&self, request: UMessage, payload: Option<UPayload>) -> UMessage {
        response_spec(self.method(), self.ttl(), self.expected_payload_format(), request, payload)
    }

    /// Creates a binding of `callback` to `method_name` on `transport`, with
    /// exactly one registration request. The binding is returned only if the
    /// transport accepted it, and then holds the one new registration; on
    /// refusal the transport's status comes back and nothing stays registered.
    pub fn create<T: UTransport>(
        transport: &mut T,
        method_name: &UUri,
        callback: H,
        payload_format: Option<UPayloadFormat>,
        ttl: Option<Duration>,
    ) -> (r: Result<Self, UStatus>)
        ensures
            match r {
                Ok(server) => {
                    &&& server.method() == *method_name
                    &&& server.callback() == callback
                    &&& server.expected_payload_format() == payload_format
                    &&& server.ttl() == ttl
                    &&& server.registration() matches Some(h)
                    &&& final(transport).journal() == old(transport).journal().push(
                        TransportCall::Register(*method_name, Ok(h)),
                    )
                    &&& !old(transport).listeners().contains_key(h.id)
                    &&& final(transport).listeners() == old(transport).listeners().insert(
                        h.id,
                        *method_name,
                    )
                },
                Err(status) => {
                    &&& final(transport).journal() == old(transport).journal().push(
                        TransportCall::Register(*method_name, Err(status)),
                    )
                    &&& status.code != UCode::OK
                    &&& final(transport).listeners() == old(transport).listeners()
                },
            },
    {
        let mut server = RpcServer::new(method_name, payload_format, ttl, callback);
        let status = server.connect(transport);
        if status.is_ok() {
            Ok(server)
        } else {
            Err(status)
        }
    }

    /// A binding of `callback` to `method` that holds no registration yet.
    fn new(
        method: &UUri,
        expected_payload_format: Option<UPayloadFormat>,
        ttl: Option<Duration>,
        callback: H,
    ) -> (s: Self)
        ensures
            s.method() == *method,
            s.expected_payload_format() == expected_payload_format,
            s.ttl() == ttl,
            s.callback() == callback,
            s.registration() is None,
    {
        RpcServer {
            method: method.clone(),
            ttl,
            callback,
            expected_payload_format,
            callback_handle: None,
        }
    }

    /// Registers the binding's method with `transport` and keeps what came back.
    fn connect<T: UTransport>(&mut self, transport: &mut T) -> (status: UStatus)
        requires
            old(self).registration() is None,
        ensures
            final(self).method() == old(self).method(),
            final(self).callback() == old(self).callback(),
            final(self).expected_payload_format() == old(self).expected_payload_format(),
            final(self).ttl() == old(self).ttl(),
            status.code == UCode::OK <==> final(self).registration() is Some,
            match final(self).registration() {
                Some(h) => {
                    &&& final(transport).journal() == old(transport).journal().push(
                        TransportCall::Register(old(self).method(), Ok(h)),
                    )
                    &&& !old(transport).listeners().contains_key(h.id)
                    &&& final(transport).listeners() == old(transport).listeners().insert(
                        h.id,
                        old(self).method(),
                    )
                },
                None => {
                    &&& final(transport).journal() == old(transport).journal().push(
                        TransportCall::Register(old(self).method(), Err(status)),
                    )
                    &&& final(transport).listeners() == old(transport).listeners()
                },
            },
    {
        let outcome = transport.register_listener(&self.method);
        self.accept_registration(outcome)
    }

    /// Takes the outcome of a registration request: a handle is kept and
    /// success reported; a refusal is reported as the transport gave it.
    fn accept_registration(&mut self, outcome: Result<ListenHandle, UStatus>) -> (status:
        UStatus)
        requires
            old(self).registration() is None,
            outcome matches Err(s) ==> s.code != UCode::OK,
        ensures
            final(self).method() == old(self).method(),
            final(self).callback() == old(self).callback(),
            final(self).expected_payload_format() == old(self).expected_payload_format(),
            final(self).ttl() == old(self).ttl(),
            match outcome {
                Ok(h) => final(self).registration() == Some(h) && status.code == UCode::OK,
                Err(s) => final(self).registration() is None && status == s,
            },
    {
        match outcome {
            Ok(h) => {
                self.callback_handle = Some(h);
                UStatus::ok()
            },
            Err(s) => s,
        }
    }

    /// Whether the binding holds a live registration.
    pub fn is_registered(&self) -> (r: bool)
        ensures
            r == self.registration() is Some,
    {
        self.callback_handle.is_some()
    }

    /// Ends the binding. A held registration is ended with exactly one
    /// deregistration request; a binding that holds none leaves the transport
    /// untouched.
    pub fn close<T: UTransport>(self, transport: &mut T)
        ensures
            match self.registration() {
                Some(h) => {
                    &&& final(transport).journal() == old(transport).journal().push(
                        TransportCall::Deregister(h),
                    )
                    &&& final(transport).listeners() == old(transport).listeners().remove(h.id)
                },
                None => *final(transport) == *old(transport),
            },
    {
        match self.callback_handle {
            Some(h) => transport.unregister_listener(h),
            None => {},
        }
    }

    /// Builds the response to `request` from the handler's result `payload`.
    pub fn build_response(&self, request: &UMessage, payload: Option<UPayload>) -> (r: UMessage)
        ensures
            r == self.response_to(*request, payload),
            r.ttl == self.ttl(),
            r.id == request.id,
            r.sink == request.source,
            payload_required(self.expected_payload_format()) && payload is None
                ==> is_contract_violation(r),
    {
        let violated = match self.expected_payload_format {
            Some(f) => f != UPayloadFormat::Unspecified && payload.is_none(),
            None => false,
        };
        UMessage {
            kind: UMessageType::Response,
            id: request.id,
            source: self.method.clone(),
            sink: request.source.clone(),
            ttl: self.ttl,
            commstatus: if violated {
                UCode::Internal
            } else {
                UCode::OK
            },
            payload,
        }
    }

    /// Runs the handler on `request` and builds the response from its result.
    pub fn handle(&self, request: &UMessage) -> (r: UMessage)
        ensures
            exists|payload: Option<UPayload>| r == self.response_to(*request, payload),
            r.ttl == self.ttl(),
            r.id == request.id,
            r.sink == request.source,
            payload_required(self.expected_payload_format()) ==> r.payload is Some
                || is_contract_violation(r),
    {
        let payload = self.callback.handle_request(request);
        self.build_response(request, payload)
    }

    /// Answers `request`: runs the handler, builds the response and hands it
    /// to `transport` for delivery, with one send request. The status the
    /// transport answered is returned; nothing is retried.
    pub fn respond<T: UTransport>(&self, transport: &mut T, request: &UMessage) -> (r: UStatus)
        ensures
            exists|payload: Option<UPayload>|
                final(transport).journal() == old(transport).journal().push(
                    TransportCall::Send(#[trigger] self.response_to(*request, payload), r),
                ),
            final(transport).listeners() == old(transport).listeners(),
    {
        let response = self.handle(request);
        transport.send(response)
    }
}

/// Closing a binding undoes its creation: removing the registration that
/// creation added to the live registrations gives back those from before.
pub proof fn lemma_close_undoes_create(before: Map<usize, UUri>, handle: ListenHandle, method: UUri)
    requires
        !before.contains_key(handle.id),
    ensures
        before.insert(handle.id, method).remove(handle.id) == before,
{
    assert(before.insert(handle.id, method).remove(handle.id) =~= before);
}

/// Responses to two requests are independent of each other: each answers its
/// own request's id and goes back to its own requester, whatever the other
/// request was and in whichever order the two were handled; requests with
/// different ids never get the same response.
pub proof fn lemma_responses_correlate<H: RpcHandler>(
    server: RpcServer<H>,
    first: UMessage,
    first_payload: Option<UPayload>,
    second: UMessage,
    second_payload: Option<UPayload>,
)
    ensures
        server.response_to(first, first_payload).id == first.id,
        server.response_to(first, first_payload).sink == first.source,
        server.response_to(second, second_payload).id == second.id,
        server.response_to(second, second_payload).sink == second.source,
        first.id != second.id ==> server.response_to(first, first_payload)
            != server.response_to(second, second_payload),
{
}

} // verus!
