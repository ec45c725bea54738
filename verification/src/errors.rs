//! The error taxonomy every operation of this library reports through.

use vstd::prelude::*;

verus! {

/// A kernel ERROR reply to one request: the negative errno the kernel put
/// in the reply, with any extended-ack text the host program decoded.
#[derive(Clone, Debug, PartialEq, Eq)]
pub struct NetlinkErrorMessage {
    /// The raw error code; `0` would mean an ACK, so a value carried inside
    /// [`Error::NetlinkError`] is never `0`.
    pub code: i32,
    /// Extended error text, empty when the kernel supplied none.
    pub message: String,
}

/// Every failure a caller of this library can observe.
#[derive(Clone, Debug, PartialEq, Eq)]
pub enum Error {
    /// Socket-level send/receive/bind failure; fatal to the connection.
    TransportError(String),
    /// The kernel answered a request with an ERROR reply.
    NetlinkError(NetlinkErrorMessage),
    /// A query expected exactly one result but the reply stream ended empty.
    RequestFailed,
    /// A reply carried a payload of a kind the request does not produce.
    UnexpectedMessage,
    /// A request held attributes that conflict; detected before sending.
    InvalidNla(String),
    /// A request was locally invalid for another reason; detected before
    /// sending.
    InvalidRequest(String),
    /// A failure in the fork/mount/unshare/setns namespace sequence.
    NamespaceError(String),
}

impl Error {
    /// A short fixed description of the error kind, for hosts that log.
    pub fn kind_message(&self) -> &'static str {
        match self {
            Error::TransportError(_) => "transport failure",
            Error::NetlinkError(_) => "netlink request failed",
            Error::RequestFailed => "expected a reply, stream ended empty",
            Error::UnexpectedMessage => "unexpected kind of reply message",
            Error::InvalidNla(_) => "conflicting netlink attributes",
            Error::InvalidRequest(_) => "invalid request",
            Error::NamespaceError(_) => "network namespace operation failed",
        }
    }
}

} // verus!
