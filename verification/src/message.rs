//! The parsed-message model the core works on: an inbound query as plain
//! values, outgoing answer records, and the response shapes each handling
//! strategy produces.
use vstd::prelude::*;

use crate::ip::IpAddress;
use crate::ip::RecordType;
use crate::name::DnsName;

verus! {

/// Time-to-live of every answer record this service emits.
pub const ANSWER_TTL: u32 = 60;

/// Operation code of an inbound message; only `Query` is served.
#[derive(Clone, Copy, Debug, PartialEq, Eq, Structural)]
pub enum OpCode {
    Query,
    Status,
    Notify,
    Update,
}

/// Whether an inbound message is a query or a response.
#[derive(Clone, Copy, Debug, PartialEq, Eq, Structural)]
pub enum MessageType {
    Query,
    Response,
}

/// Response codes this service emits: a real or empty answer, an
/// authoritative name-not-found, or the uniform server failure.
#[derive(Clone, Copy, Debug, PartialEq, Eq, Structural)]
pub enum ResponseCode {
    NoError,
    NXDomain,
    ServFail,
}

/// One inbound question, fixed for the life of a request: who asked
/// (the source address), which name and record type they asked about
/// (the latter plays no part in routing), and the header fields the
/// gate checks.
#[derive(Debug)]
pub struct Query {
    pub name: DnsName,
    pub query_type: RecordType,
    pub src: IpAddress,
    pub op_code: OpCode,
    pub message_type: MessageType,
}

/// One address record of an answer: a name, a time-to-live, and the
/// address published under it (type A or AAAA follows from the address).
#[derive(Debug)]
pub struct DnsRecord {
    pub name: DnsName,
    pub ttl: u32,
    pub addr: IpAddress,
}

/// An outgoing response: header flags and the ordered answer records.
#[derive(Debug)]
pub struct Response {
    pub authoritative: bool,
    pub code: ResponseCode,
    pub answers: Vec<DnsRecord>,
}

/// A servable request: opcode and message type both say `Query`.
pub open spec fn gate_ok(q: Query) -> bool {
    q.op_code == OpCode::Query && q.message_type == MessageType::Query
}

/// `rec` publishes `addr` under `name` with the fixed time-to-live.
pub open spec fn is_answer(rec: DnsRecord, name: Seq<u8>, addr: IpAddress) -> bool {
    rec.name@ == name && rec.ttl == ANSWER_TTL && rec.addr == addr
}

/// The reflection strategy's response: authoritative, and its sole record
/// echoes the requester's own source address under the queried name.
pub open spec fn is_reflection_response(q: Query, r: Response) -> bool {
    &&& r.authoritative
    &&& r.code == ResponseCode::NoError
    &&& r.answers@.len() == 1
    &&& is_answer(r.answers@[0], q.name@, q.src)
}

/// The default-negative strategy's response: authoritative name-not-found
/// with no answer records.
pub open spec fn is_negative_response(r: Response) -> bool {
    &&& r.authoritative
    &&& r.code == ResponseCode::NXDomain
    &&& r.answers@.len() == 0
}

/// The forwarded response: authority cleared, and the records mirror the
/// upstream addresses in order and value, each bound to the queried name.
pub open spec fn is_forward_response(q: Query, addrs: Seq<IpAddress>, r: Response) -> bool {
    &&& !r.authoritative
    &&& r.code == ResponseCode::NoError
    &&& r.answers@.len() == addrs.len()
    &&& forall|i: int| 0 <= i < addrs.len() ==> is_answer(#[trigger] r.answers@[i], q.name@, addrs[i])
}

/// The uniform failure response: a bare server-failure code, no answers.
pub open spec fn is_servfail(r: Response) -> bool {
    &&& !r.authoritative
    &&& r.code == ResponseCode::ServFail
    &&& r.answers@.len() == 0
}

impl Response {
    /// The uniform server-failure response every error maps to.
    pub fn servfail() -> (r: Response)
        ensures
            is_servfail(r),
    {
        Response { authoritative: false, code: ResponseCode::ServFail, answers: Vec::new() }
    }

    /// The authoritative negative answer: within our zone, no such record.
    pub fn negative() -> (r: Response)
        ensures
            is_negative_response(r),
    {
        Response { authoritative: true, code: ResponseCode::NXDomain, answers: Vec::new() }
    }

    /// An authoritative response carrying one address record.
    pub fn single_answer(name: &DnsName, addr: IpAddress) -> (r: Response)
        ensures
            r.authoritative,
            r.code == ResponseCode::NoError,
            r.answers@.len() == 1,
            is_answer(r.answers@[0], name@, addr),
    {
        let mut answers: Vec<DnsRecord> = Vec::new();
        answers.push(DnsRecord { name: name.clone(), ttl: ANSWER_TTL, addr });
        Response { authoritative: true, code: ResponseCode::NoError, answers }
    }
}

} // verus!
