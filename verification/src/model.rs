//! The fetch subsystem as a mathematical state machine: what is registered
//! under which identity, and what each operation makes of it.

use crate::config::{FetchResponseView, HeaderSeq};
use crate::error::ErrorView;
use crate::ids::{RequestId, FIRST_REQUEST_ID};
use crate::registry::PendingOperation;
use crate::request::OutboundRequestView;
use crate::text::text_of;
use crate::wire::canonical_reason;
use vstd::prelude::*;

verus! {

/// The address that the metadata of a response made without the network
/// carries.
pub const SYNTHETIC_URL: &'static str = "http://no.url.provided.local/";

/// The cause that is reported where a response header value is no text.
pub const HEADER_NOT_TEXT: &'static str = "response header value is not valid UTF-8";

/// The status of a response made without the network.
pub const SYNTHETIC_STATUS: u16 = 200;

/// A response that is complete before anything is driven.
pub struct SyntheticResponseView {
    pub content_type: Seq<char>,
    pub body: Seq<u8>,
}

/// Work that waits to be driven.
pub enum DeferredView {
    /// A request that the transport has to send.
    Send(OutboundRequestView),
    /// A response that is there already.
    Ready(SyntheticResponseView),
}

/// The body of a resolved response.
pub enum ResponseBodyView<B> {
    /// Bytes held by the registry.
    Buffered(Seq<u8>),
    /// A stream that the transport has to drain.
    Stream(B),
}

/// What the transport hands back for a request it sent.
pub struct TransportResponseView<B> {
    pub status: u16,
    pub url: Seq<char>,
    pub headers: Seq<(Seq<char>, Seq<u8>)>,
    pub body: B,
}

/// What the transport reports: a response, or the cause of its failure.
pub type TransportOutcomeView<B> = Result<TransportResponseView<B>, Seq<char>>;

/// What a caller of the resolving operation has to do next.
pub enum SendStepView {
    /// Nothing: the response is resolved.
    Resolved(FetchResponseView),
    /// Send the request and report what came of it.
    Drive(OutboundRequestView),
}

/// The phrase that goes with a status: the listed one, else none.
pub open spec fn reason_text(status: u16) -> Seq<char> {
    match canonical_reason(status) {
        Some(phrase) => phrase,
        None => Seq::empty(),
    }
}

/// The metadata of a response made without the network.
pub open spec fn synthetic_metadata(response: SyntheticResponseView) -> FetchResponseView {
    FetchResponseView {
        status: SYNTHETIC_STATUS,
        status_text: reason_text(SYNTHETIC_STATUS),
        headers: seq![("content-type"@, response.content_type)],
        url: SYNTHETIC_URL@,
    }
}

/// The first `n` header lines with their values read as text, or none where
/// one of these values is not UTF-8.
pub open spec fn decoded_headers(headers: Seq<(Seq<char>, Seq<u8>)>, n: nat) -> Option<HeaderSeq>
    decreases n,
{
    if n == 0 {
        Some(Seq::empty())
    } else {
        match decoded_headers(headers, (n - 1) as nat) {
            None => None,
            Some(lines) => match text_of(headers[n - 1].1) {
                None => None,
                Some(value) => Some(lines.push((headers[n - 1].0, value))),
            },
        }
    }
}

/// The metadata of a response of the transport, or none where a header
/// value is not UTF-8.
pub open spec fn metadata<B>(response: TransportResponseView<B>) -> Option<FetchResponseView> {
    match decoded_headers(response.headers, response.headers.len()) {
        None => None,
        Some(headers) => Some(
            FetchResponseView {
                status: response.status,
                status_text: reason_text(response.status),
                headers,
                url: response.url,
            },
        ),
    }
}

/// The whole state of the fetch subsystem.
pub struct FetchStateView<B> {
    /// The identity that the next submission gets.
    pub next_id: nat,
    /// The operations that wait to be driven.
    pub pending: Map<RequestId, PendingOperation<DeferredView>>,
    /// The identities whose request the transport is sending.
    pub in_flight: Set<RequestId>,
    /// The bodies of resolved responses that wait to be read.
    pub resolved: Map<RequestId, ResponseBodyView<B>>,
}

/// One operation on the state, with its arguments.
pub enum Command<B> {
    Submit(DeferredView),
    Cancel(RequestId),
    Send(RequestId),
    Complete(RequestId, TransportOutcomeView<B>),
    ReadBody(RequestId),
}

impl<B> FetchStateView<B> {
    /// The state that nothing was submitted to.
    pub open spec fn initial() -> Self {
        FetchStateView {
            next_id: FIRST_REQUEST_ID as nat,
            pending: Map::empty(),
            in_flight: Set::empty(),
            resolved: Map::empty(),
        }
    }

    /// Whether `id` has been handed out.
    pub open spec fn issued(self, id: RequestId) -> bool {
        FIRST_REQUEST_ID <= id < self.next_id
    }

    /// Whether anything is registered under `id`.
    pub open spec fn known(self, id: RequestId) -> bool {
        self.pending.contains_key(id) || self.in_flight.contains(id) || self.resolved.contains_key(
            id,
        )
    }

    /// Whether `id` was handed out and nothing is registered under it any more.
    pub open spec fn consumed(self, id: RequestId) -> bool {
        self.issued(id) && !self.known(id)
    }

    /// Whether one more operation can be submitted.
    pub open spec fn has_capacity(self) -> bool {
        self.next_id < u64::MAX
    }

    /// An identity is registered in at most one place, and only once it
    /// has been handed out.
    pub open spec fn wf(self) -> bool {
        &&& FIRST_REQUEST_ID <= self.next_id <= u64::MAX
        &&& forall|id: RequestId| #[trigger]
            self.pending.contains_key(id) ==> self.issued(id) && !self.in_flight.contains(id)
                && !self.resolved.contains_key(id)
        &&& forall|id: RequestId| #[trigger]
            self.in_flight.contains(id) ==> self.issued(id) && !self.resolved.contains_key(id)
        &&& forall|id: RequestId| #[trigger] self.resolved.contains_key(id) ==> self.issued(id)
    }

    /// Registers `operation` under the next identity.
    pub open spec fn submit(self, operation: DeferredView) -> (Self, RequestId) {
        let id = self.next_id as RequestId;
        (
            FetchStateView {
                next_id: self.next_id + 1,
                pending: self.pending.insert(id, PendingOperation::NotStarted(operation)),
                ..self
            },
            id,
        )
    }

    /// Calls off the operation that waits under `id`.
    pub open spec fn cancel(self, id: RequestId) -> (Self, Result<(), ErrorView>) {
        if self.pending.contains_key(id) {
            (
                FetchStateView {
                    pending: self.pending.insert(id, PendingOperation::Cancelled),
                    ..self
                },
                Ok(()),
            )
        } else {
            (self, Err(ErrorView::InvalidRequestId(id)))
        }
    }

    /// Takes the operation that waits under `id` to be driven.
    pub open spec fn send(self, id: RequestId) -> (Self, Result<SendStepView, ErrorView>) {
        if !self.pending.contains_key(id) {
            (self, Err(ErrorView::InvalidRequestId(id)))
        } else {
            let taken = FetchStateView { pending: self.pending.remove(id), ..self };
            match self.pending[id] {
                PendingOperation::Cancelled => (taken, Err(ErrorView::RequestCanceled)),
                PendingOperation::NotStarted(DeferredView::Send(request)) => (
                    FetchStateView { in_flight: self.in_flight.insert(id), ..taken },
                    Ok(SendStepView::Drive(request)),
                ),
                PendingOperation::NotStarted(DeferredView::Ready(response)) => (
                    FetchStateView {
                        resolved: self.resolved.insert(
                            id,
                            ResponseBodyView::Buffered(response.body),
                        ),
                        ..taken
                    },
                    Ok(SendStepView::Resolved(synthetic_metadata(response))),
                ),
            }
        }
    }

    /// Takes in what the transport made of the request sent under `id`.
    pub open spec fn complete(self, id: RequestId, outcome: TransportOutcomeView<B>) -> (
        Self,
        Result<FetchResponseView, ErrorView>,
    ) {
        if !self.in_flight.contains(id) {
            (self, Err(ErrorView::InvalidRequestId(id)))
        } else {
            let landed = FetchStateView { in_flight: self.in_flight.remove(id), ..self };
            match outcome {
                Err(cause) => (landed, Err(ErrorView::TransportError(cause))),
                Ok(response) => match metadata(response) {
                    None => (landed, Err(ErrorView::TransportError(HEADER_NOT_TEXT@))),
                    Some(found) => (
                        FetchStateView {
                            resolved: self.resolved.insert(
                                id,
                                ResponseBodyView::Stream(response.body),
                            ),
                            ..landed
                        },
                        Ok(found),
                    ),
                },
            }
        }
    }

    /// Takes the body that waits under `id`.
    pub open spec fn read_body(self, id: RequestId) -> (
        Self,
        Result<ResponseBodyView<B>, ErrorView>,
    ) {
        if self.resolved.contains_key(id) {
            (FetchStateView { resolved: self.resolved.remove(id), ..self }, Ok(self.resolved[id]))
        } else {
            (self, Err(ErrorView::InvalidRequestId(id)))
        }
    }

    /// The state after one operation. A submission that finds no identity
    /// left changes nothing.
    pub open spec fn step(self, command: Command<B>) -> Self {
        match command {
            Command::Submit(operation) => if self.has_capacity() {
                self.submit(operation).0
            } else {
                self
            },
            Command::Cancel(id) => self.cancel(id).0,
            Command::Send(id) => self.send(id).0,
            Command::Complete(id, outcome) => self.complete(id, outcome).0,
            Command::ReadBody(id) => self.read_body(id).0,
        }
    }

    /// The state after a sequence of operations.
    pub open spec fn run(self, commands: Seq<Command<B>>) -> Self
        decreases commands.len(),
    {
        if commands.len() == 0 {
            self
        } else {
            self.run(commands.drop_last()).step(commands.last())
        }
    }
}

} // verus!
