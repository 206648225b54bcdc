//! Failures of the fetch subsystem.

use crate::ids::RequestId;
use vstd::prelude::*;

verus! {

/// Which part of a submission was not well formed.
#[derive(Debug, Clone, Copy, PartialEq, Eq, Structural)]
pub enum MalformedInput {
    /// The target is not an absolute URL.
    Url,
    /// The method is not an HTTP token.
    Method,
    /// A header name is not an HTTP token.
    HeaderName,
    /// A header value holds a control character.
    HeaderValue,
    /// A proxy address is not accepted by the client.
    ProxyUrl,
}

/// Every failure that an operation of the fetch subsystem can report.
#[derive(Debug, Clone, PartialEq, Eq)]
pub enum Error {
    /// The scope denies the target; carries the target as it was resolved.
    UrlNotAllowed(String),
    /// The target's scheme is none of `http`, `https`, `data`; carries the scheme.
    SchemeNotSupported(String),
    /// No entry is registered under the identity.
    InvalidRequestId(RequestId),
    /// The operation was cancelled before it was driven.
    RequestCanceled,
    /// The submission was rejected before anything was registered.
    MalformedInput(MalformedInput),
    /// The transport failed; carries the cause as the transport worded it.
    TransportError(String),
    /// The target is no `data:` URL with a comma.
    DataUrlError,
    /// The payload of a `data:` URL could not be decoded.
    DataUrlDecodeError,
    /// The body stream failed while it was drained; carries the cause.
    BodyReadError(String),
}

/// Mathematical value of an [`Error`].
pub enum ErrorView {
    UrlNotAllowed(Seq<char>),
    SchemeNotSupported(Seq<char>),
    InvalidRequestId(RequestId),
    RequestCanceled,
    MalformedInput(MalformedInput),
    TransportError(Seq<char>),
    DataUrlError,
    DataUrlDecodeError,
    BodyReadError(Seq<char>),
}

impl View for Error {
    type V = ErrorView;

    open spec fn view(&self) -> ErrorView {
        match *self {
            Error::UrlNotAllowed(url) => ErrorView::UrlNotAllowed(url@),
            Error::SchemeNotSupported(scheme) => ErrorView::SchemeNotSupported(scheme@),
            Error::InvalidRequestId(id) => ErrorView::InvalidRequestId(id),
            Error::RequestCanceled => ErrorView::RequestCanceled,
            Error::MalformedInput(part) => ErrorView::MalformedInput(part),
            Error::TransportError(cause) => ErrorView::TransportError(cause@),
            Error::DataUrlError => ErrorView::DataUrlError,
            Error::DataUrlDecodeError => ErrorView::DataUrlDecodeError,
            Error::BodyReadError(cause) => ErrorView::BodyReadError(cause@),
        }
    }
}

/// The value of a result: the value of what it holds on either side.
pub open spec fn result_view<T: View, E: View>(r: Result<T, E>) -> Result<T::V, E::V> {
    match r {
        Ok(value) => Ok(value@),
        Err(error) => Err(error@),
    }
}

} // verus!
