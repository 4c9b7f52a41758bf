//! The errors that the client can report: what the server refused, what the
//! transport failed at, and what the caller left out before any call was made.
use reqwest::Error as TransportError;
use vstd::prelude::*;

verus! {

/// The transport's error type, carried through unchanged.
#[verifier::external_type_specification]
#[verifier::external_body]
pub struct ExTransportError(TransportError);

/// The error payload that the server sends with a failing status.
#[derive(Debug)]
pub struct ErrorMessage {
    /// The error message.
    pub(crate) message: String,
    /// The error code.
    pub(crate) status: u16,
}

/// What an `ErrorMessage` holds.
pub struct ErrorMessageView {
    pub status: u16,
    pub message: Seq<char>,
}

impl View for ErrorMessage {
    type V = ErrorMessageView;

    open(crate) spec fn view(&self) -> ErrorMessageView {
        ErrorMessageView { status: self.status, message: self.message@ }
    }
}

impl ErrorMessage {
    /// An error payload with the given status code and message.
    pub fn new(status: u16, message: String) -> (r: ErrorMessage)
        ensures
            r@ == (ErrorMessageView { status, message: message@ }),
    {
        ErrorMessage { message, status }
    }

    /// The status code that the server reported.
    pub fn status(&self) -> (r: u16)
        ensures
            r == self@.status,
    {
        self.status
    }

    /// The message that the server reported.
    pub fn message(&self) -> (r: &str)
        ensures
            r@ == self@.message,
    {
        self.message.as_str()
    }
}

/// An error raised by the client itself, before any request is sent.
#[derive(Debug)]
pub enum SDKError {
    /// A field that the intended operation needs is not set.
    MissingField(String),
}

impl SDKError {
    /// The text that the error carries.
    pub open spec fn text(&self) -> Seq<char> {
        match self {
            SDKError::MissingField(m) => m@,
        }
    }

    /// Returns a new `SDKError::MissingField` error.
    pub fn missing_field(field: &str) -> (r: SDKError)
        ensures
            r.text() == field@,
    {
        SDKError::MissingField(field.to_owned())
    }
}

/// The errors coming from the client.
#[derive(Debug)]
pub enum Error {
    /// The server answered with a failing status and this payload.
    APIError(ErrorMessage),
    /// The request could not be sent, or its answer could not be read.
    ReqwestError(TransportError),
    /// The request was not sent: the caller left out a field that it needs.
    SDKError(SDKError),
}

/// What an `Error` says, without the transport's own details.
pub enum ErrorView {
    Api(ErrorMessageView),
    Transport,
    MissingField(Seq<char>),
}

impl View for Error {
    type V = ErrorView;

    open spec fn view(&self) -> ErrorView {
        match self {
            Error::APIError(m) => ErrorView::Api(m@),
            Error::ReqwestError(_) => ErrorView::Transport,
            Error::SDKError(e) => ErrorView::MissingField(e.text()),
        }
    }
}

impl From<ErrorMessage> for Error {
    fn from(m: ErrorMessage) -> (r: Error) {
        Error::APIError(m)
    }
}

impl vstd::std_specs::convert::FromSpecImpl<ErrorMessage> for Error {
    open spec fn obeys_from_spec() -> bool {
        true
    }

    open spec fn from_spec(m: ErrorMessage) -> Error {
        Error::APIError(m)
    }
}

impl From<SDKError> for Error {
    fn from(e: SDKError) -> (r: Error) {
        Error::SDKError(e)
    }
}

impl vstd::std_specs::convert::FromSpecImpl<SDKError> for Error {
    open spec fn obeys_from_spec() -> bool {
        true
    }

    open spec fn from_spec(e: SDKError) -> Error {
        Error::SDKError(e)
    }
}

impl From<TransportError> for Error {
    fn from(e: TransportError) -> (r: Error) {
        Error::ReqwestError(e)
    }
}

impl vstd::std_specs::convert::FromSpecImpl<TransportError> for Error {
    open spec fn obeys_from_spec() -> bool {
        true
    }

    open spec fn from_spec(e: TransportError) -> Error {
        Error::ReqwestError(e)
    }
}

} // verus!
