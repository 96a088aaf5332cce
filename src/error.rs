//! Errors of the protocol layer.

use vstd::prelude::*;

verus! {

/// A command refused by the server: the fields of its `ACK` line.
#[derive(Debug)]
pub struct ProtocolError {
    pub code: u32,
    pub index: u32,
    pub command: String,
    pub message: String,
}

/// A successful reply whose data did not have the expected shape.
#[derive(Debug)]
pub enum DecodeError {
    /// An acknowledgement-only command received key/value data.
    UnexpectedPayload,
    /// A known field held text that does not parse as its type; carries the key.
    BadValue(String),
    /// A record without a key that its entity must have; carries the key.
    MissingKey(String),
    /// A response line without a colon.
    MalformedLine,
}

#[derive(Debug)]
pub enum MpdError {
    Protocol(ProtocolError),
    Decode(DecodeError),
    /// The response ended before its `OK` or `ACK` line.
    TruncatedResponse,
    /// An `ACK` line that does not follow the error grammar.
    UnparseableAck,
    /// A command that the session cannot issue in its current state.
    State,
}

pub struct ProtocolErrorView {
    pub code: u32,
    pub index: u32,
    pub command: Seq<char>,
    pub message: Seq<char>,
}

pub enum DecodeErrorView {
    UnexpectedPayload,
    BadValue(Seq<char>),
    MissingKey(Seq<char>),
    MalformedLine,
}

pub enum ErrorView {
    Protocol(ProtocolErrorView),
    Decode(DecodeErrorView),
    TruncatedResponse,
    UnparseableAck,
    State,
}

impl View for ProtocolError {
    type V = ProtocolErrorView;

    open spec fn view(&self) -> ProtocolErrorView {
        ProtocolErrorView {
            code: self.code,
            index: self.index,
            command: self.command@,
            message: self.message@,
        }
    }
}

impl View for DecodeError {
    type V = DecodeErrorView;

    open spec fn view(&self) -> DecodeErrorView {
        match self {
            DecodeError::UnexpectedPayload => DecodeErrorView::UnexpectedPayload,
            DecodeError::BadValue(k) => DecodeErrorView::BadValue(k@),
            DecodeError::MissingKey(k) => DecodeErrorView::MissingKey(k@),
            DecodeError::MalformedLine => DecodeErrorView::MalformedLine,
        }
    }
}

impl View for MpdError {
    type V = ErrorView;

    open spec fn view(&self) -> ErrorView {
        match self {
            MpdError::Protocol(e) => ErrorView::Protocol(e@),
            MpdError::Decode(e) => ErrorView::Decode(e@),
            MpdError::TruncatedResponse => ErrorView::TruncatedResponse,
            MpdError::UnparseableAck => ErrorView::UnparseableAck,
            MpdError::State => ErrorView::State,
        }
    }
}

} // verus!
