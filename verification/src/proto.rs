//! The netlink protocol layer as this library sees it: header flag bits,
//! the request a caller hands to the connection, and the replies the
//! kernel sends back.

use vstd::prelude::*;
use crate::errors::{Error, NetlinkErrorMessage};
use crate::packet_route::message::RouteNetlinkMessage;

verus! {

/// Must be set on every request.
pub const NLM_F_REQUEST: u16 = 0x01;
/// Part of a multipart reply.
pub const NLM_F_MULTIPART: u16 = 0x02;
/// Ask the kernel to confirm success with an ACK reply.
pub const NLM_F_ACK: u16 = 0x04;
/// Echo the request back.
pub const NLM_F_ECHO: u16 = 0x08;
/// Return the whole table, not one object.
pub const NLM_F_ROOT: u16 = 0x100;
/// Return all matching objects.
pub const NLM_F_MATCH: u16 = 0x200;
/// Atomic snapshot of the table.
pub const NLM_F_ATOMIC: u16 = 0x400;
/// A streaming dump of every matching object: `ROOT | MATCH`.
pub const NLM_F_DUMP: u16 = 0x100 | 0x200;
/// Replace an existing object.
pub const NLM_F_REPLACE: u16 = 0x100;
/// Fail if the object already exists.
pub const NLM_F_EXCL: u16 = 0x200;
/// Create the object if it does not exist.
pub const NLM_F_CREATE: u16 = 0x400;
/// Add to the end of the object list.
pub const NLM_F_APPEND: u16 = 0x800;

/// One logical request: a typed payload plus the header flags to send it
/// with. The sequence number is not part of the request; the connection
/// assigns it when the request is sent.
#[derive(Debug, PartialEq, Eq)]
pub struct NetlinkRequest {
    pub message: RouteNetlinkMessage,
    pub flags: u16,
}

/// The payload of one decoded kernel reply.
#[derive(Debug, PartialEq, Eq)]
pub enum ReplyPayload {
    /// Terminates a DUMP reply stream.
    Done,
    /// ACK or ERROR: the kernel's status reply. Code `0` is an ACK;
    /// a non-zero code is the (negative) errno of a failed request.
    Status(i32),
    /// The receive buffer overran; terminal for the affected request.
    Overrun,
    /// Nothing; skipped by every consumer.
    Noop,
    /// A typed route-netlink payload (one dumped object, an echo, or an
    /// unsolicited notification).
    InnerMessage(RouteNetlinkMessage),
}

impl ReplyPayload {
    /// A reply after which the kernel sends nothing more for the request:
    /// the DUMP terminator, an ACK, an ERROR, or an overrun marker.
    pub open spec fn spec_is_terminal(self) -> bool {
        match self {
            ReplyPayload::Done => true,
            ReplyPayload::Status(_) => true,
            ReplyPayload::Overrun => true,
            ReplyPayload::Noop => false,
            ReplyPayload::InnerMessage(_) => false,
        }
    }

    pub fn is_terminal(&self) -> (r: bool)
        ensures
            r == self.spec_is_terminal(),
    {
        match self {
            ReplyPayload::Done => true,
            ReplyPayload::Status(_) => true,
            ReplyPayload::Overrun => true,
            ReplyPayload::Noop => false,
            ReplyPayload::InnerMessage(_) => false,
        }
    }

    /// An ERROR reply proper: a status whose code is not zero.
    pub open spec fn spec_is_error(self) -> bool {
        self matches ReplyPayload::Status(code) && code != 0
    }

    /// An ACK: a status reply with code zero.
    pub open spec fn spec_is_ack(self) -> bool {
        self matches ReplyPayload::Status(code) && code == 0
    }
}

/// One decoded kernel reply: the sequence number from its header and its
/// payload.
#[derive(Debug, PartialEq, Eq)]
pub struct ReplyMessage {
    pub sequence: u32,
    pub payload: ReplyPayload,
}

/// The error-filtering convention every request shares: an ERROR reply
/// fails the operation with the kernel's code; any other reply lets it
/// continue.
pub fn check_ack(payload: &ReplyPayload) -> (r: Result<(), Error>)
    ensures
        match r {
            Ok(()) => !payload.spec_is_error(),
            Err(e) => {
                &&& payload.spec_is_error()
                &&& e matches Error::NetlinkError(em)
                &&& payload matches ReplyPayload::Status(code) && em.code == code
                &&& em.message@ == Seq::<char>::empty()
            },
        },
{
    match payload {
        ReplyPayload::Status(code) => {
            if *code != 0 {
                Err(
                    Error::NetlinkError(
                        NetlinkErrorMessage { code: *code, message: String::new() },
                    ),
                )
            } else {
                Ok(())
            }
        },
        _ => Ok(()),
    }
}

/// The first ERROR code in a reply stream, if any.
pub open spec fn spec_first_error(replies: Seq<ReplyPayload>) -> Option<i32>
    decreases replies.len(),
{
    if replies.len() == 0 {
        None
    } else if replies[0].spec_is_error() {
        match replies[0] {
            ReplyPayload::Status(code) => Some(code),
            _ => None,
        }
    } else {
        spec_first_error(replies.drop_first())
    }
}

proof fn lemma_first_error_hit(replies: Seq<ReplyPayload>, i: int)
    requires
        0 <= i < replies.len(),
        replies[i].spec_is_error(),
        forall|j: int| 0 <= j < i ==> !(#[trigger] replies[j].spec_is_error()),
    ensures
        replies[i] matches ReplyPayload::Status(code) && spec_first_error(replies) == Some(code),
    decreases i,
{
    if i > 0 {
        lemma_first_error_hit(replies.drop_first(), i - 1);
    }
}

proof fn lemma_first_error_none(replies: Seq<ReplyPayload>)
    requires
        forall|j: int| 0 <= j < replies.len() ==> !(#[trigger] replies[j].spec_is_error()),
    ensures
        spec_first_error(replies) is None,
    decreases replies.len(),
{
    if replies.len() > 0 {
        lemma_first_error_none(replies.drop_first());
    }
}

/// The outcome of a single-object (ACK-confirmed) request, from the
/// replies its stream delivered: the first ERROR fails it with that
/// code; a stream without an ERROR is success.
pub fn acked_outcome(replies: &Vec<ReplyPayload>) -> (r: Result<(), Error>)
    ensures
        match spec_first_error(replies@) {
            Some(code) => {
                &&& r matches Err(Error::NetlinkError(em))
                &&& em.code == code
                &&& em.message@ == Seq::<char>::empty()
            },
            None => r is Ok,
        },
{
    let n: usize = replies.len();
    let mut i: usize = 0;
    while i < n
        invariant
            n == replies@.len(),
            i <= n,
            forall|j: int| 0 <= j < i ==> !(#[trigger] replies@[j].spec_is_error()),
        decreases n - i,
    {
        let step = check_ack(&replies[i]);
        match step {
            Err(e) => {
                proof {
                    lemma_first_error_hit(replies@, i as int);
                }
                return Err(e);
            },
            Ok(()) => {
                i += 1;
            },
        }
    }
    proof {
        lemma_first_error_none(replies@);
    }
    Ok(())
}

} // verus!
