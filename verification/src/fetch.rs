//! The operations of the fetch subsystem: submit, cancel, resolve, read.
//!
//! Nothing here touches the network. Resolving hands the request to the
//! caller, who sends it and reports what came of it; reading hands over the
//! body, which the caller drains where it is a stream.

use crate::config::{ClientConfig, ClientConfigView, FetchResponse, HeaderList, HeaderSeq};
use crate::error::{result_view, Error, ErrorView, MalformedInput};
use crate::ids::RequestId;
use crate::model::{
    decoded_headers, reason_text, DeferredView, FetchStateView,
    ResponseBodyView, SendStepView, SyntheticResponseView, TransportOutcomeView,
    TransportResponseView, HEADER_NOT_TEXT, SYNTHETIC_STATUS, SYNTHETIC_URL,
};
use crate::registry::{PendingOperation, RequestRegistry, ResponseRegistry};
use crate::request::{build_request, outbound_request, OutboundRequest};
use crate::text::string_from_utf8;
use crate::wire::{
    decode_data_url, decoded_data_url, header_value_is_valid, is_header_value, is_method,
    method_is_valid, parse_url, parsed_url, reason_phrase,
};
use std::collections::HashSet;
use vstd::prelude::*;
use vstd::utf8::encode_utf8;

verus! {

broadcast use vstd::std_specs::hash::group_hash_axioms;

/// A response that is complete before anything is driven.
#[derive(Debug, Clone, PartialEq, Eq)]
pub struct SyntheticResponse {
    pub content_type: String,
    pub body: Vec<u8>,
}

impl View for SyntheticResponse {
    type V = SyntheticResponseView;

    open spec fn view(&self) -> SyntheticResponseView {
        SyntheticResponseView { content_type: self.content_type@, body: self.body@ }
    }
}

/// Work that waits to be driven.
#[derive(Debug, Clone, PartialEq, Eq)]
pub enum Deferred {
    /// A request that the transport has to send.
    Send(OutboundRequest),
    /// A response that is there already.
    Ready(SyntheticResponse),
}

impl View for Deferred {
    type V = DeferredView;

    open spec fn view(&self) -> DeferredView {
        match *self {
            Deferred::Send(request) => DeferredView::Send(request@),
            Deferred::Ready(response) => DeferredView::Ready(response@),
        }
    }
}

/// The body of a resolved response.
#[derive(Debug, Clone, PartialEq, Eq)]
pub enum ResponseBody<B> {
    /// Bytes held by the registry.
    Buffered(Vec<u8>),
    /// A stream that the transport has to drain.
    Stream(B),
}

impl<B> View for ResponseBody<B> {
    type V = ResponseBodyView<B>;

    open spec fn view(&self) -> ResponseBodyView<B> {
        match *self {
            ResponseBody::Buffered(bytes) => ResponseBodyView::Buffered(bytes@),
            ResponseBody::Stream(stream) => ResponseBodyView::Stream(stream),
        }
    }
}

/// What the transport hands back for a request it sent: the status, the
/// address after redirections, the header lines with their values as bytes,
/// and the body stream.
#[derive(Debug, Clone, PartialEq, Eq)]
pub struct TransportResponse<B> {
    pub status: u16,
    pub url: String,
    pub headers: Vec<(String, Vec<u8>)>,
    pub body: B,
}

impl<B> View for TransportResponse<B> {
    type V = TransportResponseView<B>;

    open spec fn view(&self) -> TransportResponseView<B> {
        TransportResponseView {
            status: self.status,
            url: self.url@,
            headers: self.headers.deep_view(),
            body: self.body,
        }
    }
}

/// The value of what the transport reports.
pub open spec fn outcome_view<B>(
    outcome: Result<TransportResponse<B>, String>,
) -> TransportOutcomeView<B> {
    match outcome {
        Ok(response) => Ok(response@),
        Err(cause) => Err(cause@),
    }
}

/// What a caller of [`fetch_send`] has to do next.
#[derive(Debug, Clone, PartialEq, Eq)]
pub enum SendStep {
    /// Nothing: the response is resolved.
    Resolved(FetchResponse),
    /// Send the request and hand the outcome to [`fetch_send_complete`].
    Drive(OutboundRequest),
}

impl View for SendStep {
    type V = SendStepView;

    open spec fn view(&self) -> SendStepView {
        match *self {
            SendStep::Resolved(response) => SendStepView::Resolved(response@),
            SendStep::Drive(request) => SendStepView::Drive(request@),
        }
    }
}

/// The value of a registered operation.
pub open spec fn pending_view(operation: PendingOperation<Deferred>) -> PendingOperation<
    DeferredView,
> {
    match operation {
        PendingOperation::NotStarted(work) => PendingOperation::NotStarted(work@),
        PendingOperation::Cancelled => PendingOperation::Cancelled,
    }
}

/// The values of the registered operations.
pub open spec fn pending_map(entries: Map<RequestId, PendingOperation<Deferred>>) -> Map<
    RequestId,
    PendingOperation<DeferredView>,
> {
    entries.map_values(|operation: PendingOperation<Deferred>| pending_view(operation))
}

/// The values of the registered bodies.
pub open spec fn body_map<B>(entries: Map<RequestId, ResponseBody<B>>) -> Map<
    RequestId,
    ResponseBodyView<B>,
> {
    entries.map_values(|body: ResponseBody<B>| body@)
}

/// The registries of the fetch subsystem, with the set of requests that
/// are being sent.
pub struct FetchState<B> {
    requests: RequestRegistry<Deferred>,
    in_flight: HashSet<RequestId>,
    responses: ResponseRegistry<ResponseBody<B>>,
}

impl<B> View for FetchState<B> {
    type V = FetchStateView<B>;

    closed spec fn view(&self) -> FetchStateView<B> {
        FetchStateView {
            next_id: self.requests.upcoming(),
            pending: pending_map(self.requests.entries()),
            in_flight: self.in_flight@,
            resolved: body_map(self.responses.entries()),
        }
    }
}

impl<B> FetchState<B> {
    /// The invariant of the state: an identity is registered in at most one
    /// place, and only once it has been handed out. Every operation keeps
    /// it, and with it the invariant of the state's value.
    pub closed spec fn wf(&self) -> bool {
        self.requests.wf() && self@.wf()
    }

    pub fn new() -> (out: Self)
        ensures
            out.wf(),
            out@.wf(),
            out@ == FetchStateView::<B>::initial(),
    {
        let out = FetchState {
            requests: RequestRegistry::new(),
            in_flight: HashSet::new(),
            responses: ResponseRegistry::new(),
        };
        assert(out@.pending =~= Map::empty());
        assert(out@.resolved =~= Map::empty());
        out
    }

    /// Whether one more operation can be submitted.
    pub fn has_capacity(&self) -> (out: bool)
        ensures
            out == self@.has_capacity(),
    {
        self.requests.has_capacity()
    }

    /// Registers `operation` under a fresh identity and returns the identity.
    pub fn submit(&mut self, operation: Deferred) -> (id: RequestId)
        requires
            old(self).wf(),
            old(self)@.has_capacity(),
        ensures
            final(self).wf(),
            final(self)@.wf(),
            id == old(self)@.submit(operation@).1,
            final(self)@ == old(self)@.submit(operation@).0,
    {
        let id = self.requests.submit(operation);
        proof {
            let expected = old(self)@.submit(operation@).0;
            assert(self@.pending =~= expected.pending);
        }
        id
    }
}

/// The phrase that goes with a status: the listed one, else none.
pub fn status_text(status: u16) -> (out: String)
    ensures
        out@ == reason_text(status),
{
    match reason_phrase(status) {
        Some(phrase) => phrase,
        None => String::new(),
    }
}

/// An undecodable value among the first lines stays the outcome however
/// many lines follow.
proof fn lemma_undecodable_stays(headers: Seq<(Seq<char>, Seq<u8>)>, n: nat, m: nat)
    requires
        n <= m,
        decoded_headers(headers, n) is None,
    ensures
        decoded_headers(headers, m) is None,
    decreases m,
{
    if n < m {
        lemma_undecodable_stays(headers, n, (m - 1) as nat);
    }
}

/// Reads the values of header lines as text.
pub fn decode_headers(headers: &Vec<(String, Vec<u8>)>) -> (out: Option<HeaderList>)
    ensures
        out.deep_view() == decoded_headers(headers.deep_view(), headers.len() as nat),
{
    let ghost h = headers.deep_view();
    let mut lines: HeaderList = Vec::new();
    let mut i: usize = 0;
    while i < headers.len()
        invariant
            i <= headers.len(),
            h == headers.deep_view(),
            decoded_headers(h, i as nat) == Some(lines.deep_view()),
        decreases headers.len() - i,
    {
        assert(h[i as int].1 =~= headers[i as int].1@);
        match string_from_utf8(headers[i].1.as_slice()) {
            Some(value) => {
                lines.push((headers[i].0.clone(), value));
            },
            None => {
                proof {
                    lemma_undecodable_stays(h, (i + 1) as nat, headers.len() as nat);
                }
                return None;
            },
        }
        i += 1;
    }
    Some(lines)
}

/// The value of a result that holds nothing on success.
pub open spec fn result_unit_view(r: Result<(), Error>) -> Result<(), ErrorView> {
    match r {
        Ok(_) => Ok(()),
        Err(error) => Err(error@),
    }
}

/// Calls off the operation registered under `id`.
pub fn fetch_cancel<B>(state: &mut FetchState<B>, id: RequestId) -> (out: Result<(), Error>)
    requires
        old(state).wf(),
    ensures
        final(state).wf(),
        final(state)@.wf(),
        final(state)@ == old(state)@.cancel(id).0,
        result_unit_view(out) == old(state)@.cancel(id).1,
{
    let out = state.requests.cancel(id);
    proof {
        let expected = old(state)@.cancel(id).0;
        assert(state@.pending =~= expected.pending);
    }
    out
}

/// Takes the operation registered under `id` to be driven. A response
/// that is there already is resolved at once; a request is handed out to
/// be sent, and `id` counts as in flight until [`fetch_send_complete`] is
/// told what came of it.
pub fn fetch_send<B>(state: &mut FetchState<B>, id: RequestId) -> (out: Result<SendStep, Error>)
    requires
        old(state).wf(),
    ensures
        final(state).wf(),
        final(state)@.wf(),
        final(state)@ == old(state)@.send(id).0,
        result_view(out) == old(state)@.send(id).1,
{
    let ghost expected = old(state)@.send(id).0;
    let taken = state.requests.take(id);
    assert(state@.pending =~= old(state)@.pending.remove(id));
    match taken {
        Err(e) => {
            assert(state@.pending =~= expected.pending);
            Err(e)
        },
        Ok(PendingOperation::Cancelled) => {
            Err(Error::RequestCanceled)
        },
        Ok(PendingOperation::NotStarted(Deferred::Send(request))) => {
            state.in_flight.insert(id);
            Ok(SendStep::Drive(request))
        },
        Ok(PendingOperation::NotStarted(Deferred::Ready(response))) => {
            let SyntheticResponse { content_type, body } = response;
            state.responses.store(id, ResponseBody::Buffered(body));
            assert(state@.resolved =~= expected.resolved);
            let mut headers: HeaderList = Vec::new();
            headers.push(("content-type".to_owned(), content_type));
            assert(headers.deep_view() =~= seq![("content-type"@, content_type@)]);
            Ok(
                SendStep::Resolved(
                    FetchResponse {
                        status: SYNTHETIC_STATUS,
                        status_text: status_text(SYNTHETIC_STATUS),
                        headers,
                        url: SYNTHETIC_URL.to_owned(),
                    },
                ),
            )
        },
    }
}

/// Takes in what the transport made of the request that was handed out
/// under `id`: on a response whose header values are text, registers
/// the body and returns the metadata.
pub fn fetch_send_complete<B>(
    state: &mut FetchState<B>,
    id: RequestId,
    outcome: Result<TransportResponse<B>, String>,
) -> (out:
    Result<FetchResponse, Error>)
    requires
        old(state).wf(),
    ensures
        final(state).wf(),
        final(state)@.wf(),
        final(state)@ == old(state)@.complete(id, outcome_view(outcome)).0,
        result_view(out) == old(state)@.complete(id, outcome_view(outcome)).1,
{
    let ghost expected = old(state)@.complete(id, outcome_view(outcome)).0;
    if !state.in_flight.remove(&id) {
        assert(state@.in_flight =~= old(state)@.in_flight);
        return Err(Error::InvalidRequestId(id));
    }
    let response = match outcome {
        Ok(response) => response,
        Err(cause) => {
            return Err(Error::TransportError(cause));
        },
    };
    let TransportResponse { status, url, headers, body } = response;
    let lines = match decode_headers(&headers) {
        Some(lines) => lines,
        None => {
            return Err(Error::TransportError(HEADER_NOT_TEXT.to_owned()));
        },
    };
    state.responses.store(id, ResponseBody::Stream(body));
    assert(state@.resolved =~= expected.resolved);
    Ok(FetchResponse { status, status_text: status_text(status), headers: lines, url })
}

/// Takes the body registered under `id` out of the registry.
pub fn fetch_read_body<B>(state: &mut FetchState<B>, id: RequestId) -> (out: Result<ResponseBody<B>, Error>)
    requires
        old(state).wf(),
    ensures
        final(state).wf(),
        final(state)@.wf(),
        final(state)@ == old(state)@.read_body(id).0,
        result_view(out) == old(state)@.read_body(id).1,
{
    let out = state.responses.take(id);
    proof {
        let expected = old(state)@.read_body(id).0;
        assert(state@.resolved =~= expected.resolved);
    }
    out
}

/// Turns what draining a body stream gave into the result of the read.
pub fn body_read(drained: Result<Vec<u8>, String>) -> (out: Result<Vec<u8>, Error>)
    ensures
        match drained {
            Ok(bytes) => out == Ok::<Vec<u8>, Error>(bytes),
            Err(cause) => out == Err::<Vec<u8>, Error>(Error::BodyReadError(cause)),
        },
{
    match drained {
        Ok(bytes) => Ok(bytes),
        Err(cause) => Err(Error::BodyReadError(cause)),
    }
}

/// Whether requests of this scheme go over the network.
pub open spec fn is_network_scheme(scheme: Seq<char>) -> bool {
    scheme == "http"@ || scheme == "https"@
}

/// What a `data:` target that resolved to `href` is submitted as: the
/// response that its payload decodes to.
pub open spec fn data_submission(href: Seq<char>) -> Result<DeferredView, ErrorView> {
    match decoded_data_url(href) {
        None => Err(ErrorView::DataUrlError),
        Some(found) => match found.1 {
            None => Err(ErrorView::DataUrlDecodeError),
            Some(body) => if is_header_value(encode_utf8(found.0)) {
                Ok(DeferredView::Ready(SyntheticResponseView { content_type: found.0, body }))
            } else {
                Err(ErrorView::MalformedInput(MalformedInput::HeaderValue))
            },
        },
    }
}

/// What a network target that resolved to `href` is submitted as: the
/// outbound request, where the scope allows the target.
pub open spec fn network_submission(
    config: ClientConfigView,
    href: Seq<char>,
    scope_allows: bool,
) -> Result<DeferredView, ErrorView> {
    if !scope_allows {
        Err(ErrorView::UrlNotAllowed(href))
    } else {
        match outbound_request(config, href) {
            Ok(request) => Ok(DeferredView::Send(request)),
            Err(part) => Err(ErrorView::MalformedInput(part)),
        }
    }
}

/// What a submission is registered as, or why it is rejected. The target is
/// looked at first, then the method, then the scheme.
pub open spec fn submission(config: ClientConfigView, scope_allows: bool) -> Result<
    DeferredView,
    ErrorView,
> {
    match parsed_url(config.url) {
        None => Err(ErrorView::MalformedInput(MalformedInput::Url)),
        Some(target) => if !is_method(encode_utf8(config.method)) {
            Err(ErrorView::MalformedInput(MalformedInput::Method))
        } else if is_network_scheme(target.0) {
            network_submission(config, target.1, scope_allows)
        } else if target.0 == "data"@ {
            data_submission(target.1)
        } else {
            Err(ErrorView::SchemeNotSupported(target.0))
        },
    }
}

/// Whether what becomes of a submission depends on the scope.
pub open spec fn consults_scope(config: ClientConfigView) -> bool {
    match parsed_url(config.url) {
        None => false,
        Some(target) => is_method(encode_utf8(config.method)) && is_network_scheme(target.0),
    }
}

/// Whether the scope has to be asked about the target of `client_config`
/// before it is submitted.
pub fn needs_scope(client_config: &ClientConfig) -> (out: bool)
    ensures
        out == consults_scope(client_config@),
{
    match parse_url(client_config.url.as_str()) {
        None => false,
        Some(target) => {
            let http = "http".to_owned();
            let https = "https".to_owned();
            method_is_valid(client_config.method.as_str().as_bytes()) && (target.0 == http
                || target.0 == https)
        },
    }
}

fn prepare_data(href: &str) -> (out: Result<Deferred, Error>)
    ensures
        result_view(out) == data_submission(href@),
{
    match decode_data_url(href) {
        None => Err(Error::DataUrlError),
        Some(found) => {
            let (content_type, payload) = found;
            match payload {
                None => Err(Error::DataUrlDecodeError),
                Some(body) => {
                    assert(found.deep_view().1->Some_0 =~= body@);
                    if header_value_is_valid(content_type.as_str().as_bytes()) {
                        Ok(Deferred::Ready(SyntheticResponse { content_type, body }))
                    } else {
                        Err(Error::MalformedInput(MalformedInput::HeaderValue))
                    }
                },
            }
        },
    }
}

/// Works out what a submission is registered as, without registering it.
///
/// `scope_allows` is the answer of the scope to the target; it is looked at
/// only where [`needs_scope`] holds.
pub fn prepare(client_config: ClientConfig, scope_allows: bool) -> (out: Result<Deferred, Error>)
    ensures
        result_view(out) == submission(client_config@, scope_allows),
{
    let target = match parse_url(client_config.url.as_str()) {
        Some(target) => target,
        None => {
            return Err(Error::MalformedInput(MalformedInput::Url));
        },
    };
    let (scheme, href) = target;
    if !method_is_valid(client_config.method.as_str().as_bytes()) {
        return Err(Error::MalformedInput(MalformedInput::Method));
    }
    let http = "http".to_owned();
    let https = "https".to_owned();
    let data = "data".to_owned();
    if scheme == http || scheme == https {
        if !scope_allows {
            return Err(Error::UrlNotAllowed(href));
        }
        match build_request(client_config, href) {
            Ok(request) => Ok(Deferred::Send(request)),
            Err(part) => Err(Error::MalformedInput(part)),
        }
    } else if scheme == data {
        prepare_data(href.as_str())
    } else {
        Err(Error::SchemeNotSupported(scheme))
    }
}

/// Submits a request: registers what it stands for under a fresh identity
/// and returns the identity. A rejected submission changes nothing.
pub fn fetch<B>(state: &mut FetchState<B>, client_config: ClientConfig, scope_allows: bool) -> (out:
    Result<RequestId, Error>)
    requires
        old(state).wf(),
        old(state)@.has_capacity(),
    ensures
        final(state).wf(),
        final(state)@.wf(),
        match submission(client_config@, scope_allows) {
            Ok(operation) => out == Ok::<RequestId, Error>(old(state)@.submit(operation).1)
                && final(state)@ == old(state)@.submit(operation).0,
            Err(e) => result_view(out) == Err::<RequestId, ErrorView>(e) && final(state)@ == old(
                state,
            )@,
        },
{
    match prepare(client_config, scope_allows) {
        Ok(operation) => Ok(state.submit(operation)),
        Err(e) => Err(e),
    }
}

} // verus!
