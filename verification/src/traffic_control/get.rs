//! Dumping traffic-control objects: qdiscs, classes, filters and
//! chains.

use vstd::prelude::*;
use crate::errors::Error;
use crate::handle::Handle;
use crate::packet_route::message::RouteNetlinkMessage;
use crate::packet_route::tc::{TcHandle, TcHeader, TcMessage};
use crate::proto::{NetlinkRequest, ReplyPayload, NLM_F_DUMP, NLM_F_REQUEST};

verus! {

/// A request to dump queue disciplines.
pub struct QDiscGetRequest {
    pub handle: Handle,
    pub message: TcMessage,
}

impl QDiscGetRequest {
    pub fn new(handle: Handle) -> (r: Self)
        ensures
            r.message.header == TcHeader::spec_default(),
            r.message.attributes@ == Seq::<crate::packet_route::tc::TcAttribute>::empty(),
    {
        QDiscGetRequest { handle, message: TcMessage::new() }
    }


    /// Restrict the dump to one interface.
    pub fn index(self, index: i32) -> (r: Self)
        ensures
            r.message.header == (TcHeader { index, ..self.message.header }),
            r.message.attributes@ == self.message.attributes@,
    {
        let mut ret = self;
        ret.message.header.index = index;
        ret
    }

    /// Address the ingress qdisc.
    pub fn ingress(self) -> (r: Self)
        ensures
            r.message.header == (TcHeader {
                parent: TcHandle { major: 0xffffu16, minor: 0xfff1u16 },
                ..self.message.header
            }),
            r.message.attributes@ == self.message.attributes@,
    {
        let mut ret = self;
        ret.message.header.parent = TcHandle::ingress();
        ret
    }

    /// The wire request this operation sends: a `GetQueueDiscipline` dump.
    pub fn into_request(self) -> (r: NetlinkRequest)
        ensures
            r.message == RouteNetlinkMessage::GetQueueDiscipline(self.message),
            r.flags == NLM_F_REQUEST | NLM_F_DUMP,
    {
        NetlinkRequest {
            message: RouteNetlinkMessage::GetQueueDiscipline(self.message),
            flags: NLM_F_REQUEST | NLM_F_DUMP,
        }
    }
}

/// A request to dump traffic classes of one interface.
pub struct TrafficClassGetRequest {
    pub handle: Handle,
    pub message: TcMessage,
}

impl TrafficClassGetRequest {
    pub fn new(handle: Handle, ifindex: i32) -> (r: Self)
        ensures
            r.message.header == (TcHeader { index: ifindex, ..TcHeader::spec_default() }),
            r.message.attributes@ == Seq::<crate::packet_route::tc::TcAttribute>::empty(),
    {
        TrafficClassGetRequest { handle, message: TcMessage::with_index(ifindex) }
    }


    /// The wire request this operation sends: a `GetTrafficClass` dump.
    pub fn into_request(self) -> (r: NetlinkRequest)
        ensures
            r.message == RouteNetlinkMessage::GetTrafficClass(self.message),
            r.flags == NLM_F_REQUEST | NLM_F_DUMP,
    {
        NetlinkRequest {
            message: RouteNetlinkMessage::GetTrafficClass(self.message),
            flags: NLM_F_REQUEST | NLM_F_DUMP,
        }
    }
}

/// A request to dump traffic filters of one interface.
pub struct TrafficFilterGetRequest {
    pub handle: Handle,
    pub message: TcMessage,
}

impl TrafficFilterGetRequest {
    pub fn new(handle: Handle, ifindex: i32) -> (r: Self)
        ensures
            r.message.header == (TcHeader { index: ifindex, ..TcHeader::spec_default() }),
            r.message.attributes@ == Seq::<crate::packet_route::tc::TcAttribute>::empty(),
    {
        TrafficFilterGetRequest { handle, message: TcMessage::with_index(ifindex) }
    }


    /// Set the parent to the root.
    pub fn root(self) -> (r: Self)
        ensures
            r.message.header == (TcHeader {
                parent: TcHandle { major: 0xffffu16, minor: 0xffffu16 },
                ..self.message.header
            }),
            r.message.attributes@ == self.message.attributes@,
    {
        let mut ret = self;
        ret.message.header.parent = TcHandle::root();
        ret
    }

    /// The wire request this operation sends: a `GetTrafficFilter` dump.
    pub fn into_request(self) -> (r: NetlinkRequest)
        ensures
            r.message == RouteNetlinkMessage::GetTrafficFilter(self.message),
            r.flags == NLM_F_REQUEST | NLM_F_DUMP,
    {
        NetlinkRequest {
            message: RouteNetlinkMessage::GetTrafficFilter(self.message),
            flags: NLM_F_REQUEST | NLM_F_DUMP,
        }
    }
}

/// A request to dump traffic chains of one interface.
pub struct TrafficChainGetRequest {
    pub handle: Handle,
    pub message: TcMessage,
}

impl TrafficChainGetRequest {
    pub fn new(handle: Handle, ifindex: i32) -> (r: Self)
        ensures
            r.message.header == (TcHeader { index: ifindex, ..TcHeader::spec_default() }),
            r.message.attributes@ == Seq::<crate::packet_route::tc::TcAttribute>::empty(),
    {
        TrafficChainGetRequest { handle, message: TcMessage::with_index(ifindex) }
    }


    /// The wire request this operation sends: a `GetTrafficChain` dump.
    pub fn into_request(self) -> (r: NetlinkRequest)
        ensures
            r.message == RouteNetlinkMessage::GetTrafficChain(self.message),
            r.flags == NLM_F_REQUEST | NLM_F_DUMP,
    {
        NetlinkRequest {
            message: RouteNetlinkMessage::GetTrafficChain(self.message),
            flags: NLM_F_REQUEST | NLM_F_DUMP,
        }
    }
}

/// Interpret one delivered reply of a qdisc/class/filter/chain dump:
/// `Ok(Some(m))` is an object, `Ok(None)` ends the stream, an ERROR
/// reply or a payload of any other kind fails the dump. The four dump
/// kinds all answer with a `New*` message carrying a [`TcMessage`].
pub fn next_tc_message(payload: ReplyPayload) -> (r: Result<Option<TcMessage>, Error>)
    ensures
        match r {
            Ok(item) => match payload {
                ReplyPayload::InnerMessage(RouteNetlinkMessage::NewQueueDiscipline(m)) => item
                    == Some(m),
                ReplyPayload::InnerMessage(RouteNetlinkMessage::NewTrafficClass(m)) => item
                    == Some(m),
                ReplyPayload::InnerMessage(RouteNetlinkMessage::NewTrafficFilter(m)) => item
                    == Some(m),
                ReplyPayload::InnerMessage(RouteNetlinkMessage::NewTrafficChain(m)) => item
                    == Some(m),
                ReplyPayload::Done => item is None,
                ReplyPayload::Status(code) => code == 0 && item is None,
                ReplyPayload::Overrun => item is None,
                _ => false,
            },
            Err(e) => match payload {
                ReplyPayload::Status(code) => code != 0 && (e matches Error::NetlinkError(em)
                    && em.code == code),
                ReplyPayload::InnerMessage(m) => !(m is NewQueueDiscipline || m
                    is NewTrafficClass || m is NewTrafficFilter || m is NewTrafficChain) && e
                    is UnexpectedMessage,
                ReplyPayload::Noop => e is UnexpectedMessage,
                _ => false,
            },
        },
{
    match payload {
        ReplyPayload::InnerMessage(inner) => match inner {
            RouteNetlinkMessage::NewQueueDiscipline(m) => Ok(Some(m)),
            RouteNetlinkMessage::NewTrafficClass(m) => Ok(Some(m)),
            RouteNetlinkMessage::NewTrafficFilter(m) => Ok(Some(m)),
            RouteNetlinkMessage::NewTrafficChain(m) => Ok(Some(m)),
            _ => Err(Error::UnexpectedMessage),
        },
        ReplyPayload::Done => Ok(None),
        ReplyPayload::Overrun => Ok(None),
        ReplyPayload::Status(code) => {
            match crate::proto::check_ack(&ReplyPayload::Status(code)) {
                Ok(()) => Ok(None),
                Err(e) => Err(e),
            }
        },
        ReplyPayload::Noop => Err(Error::UnexpectedMessage),
    }
}

} // verus!
