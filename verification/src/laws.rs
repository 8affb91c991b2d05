//! Service-level lemmas: each one states a promise of the router and
//! the response builders, proved for all inputs at once.
use vstd::prelude::*;

use crate::handler::{
    correct_final_response, has_entry, local_response_ok, lookup_entry, route_of, Handler, Route,
};
use crate::ip::IpAddress;
use crate::message::{
    gate_ok, is_forward_response, is_servfail, Query, Response, ResponseCode, ANSWER_TTL,
};
use crate::name::in_zone;
use crate::resolver::ResolverError;

verus! {

/// A matching entry always wins: whatever zones its name lies in, a
/// queried name with an entry is routed to the local-entry strategy,
/// never to reflection or the negative default.
pub proof fn lemma_entry_precedence(h: Handler, name: Seq<u8>)
    requires
        has_entry(h.entries@, name),
    ensures
        route_of(h, name) == Route::LocalEntry,
{
}

/// Querying an entry's name yields an authoritative response whose single
/// record carries that entry's address with the fixed time-to-live —
/// whatever the upstream resolver would have said.
pub proof fn lemma_entry_query(
    h: Handler,
    q: Query,
    upstream: Result<Seq<IpAddress>, ResolverError>,
    r: Response,
    ip: IpAddress,
)
    requires
        gate_ok(q),
        lookup_entry(h.entries@, q.name@) == Some(ip),
        correct_final_response(h, q, upstream, r),
    ensures
        r.authoritative,
        r.code == ResponseCode::NoError,
        r.answers@.len() == 1,
        r.answers@[0].name@ == q.name@,
        r.answers@[0].ttl == ANSWER_TTL,
        r.answers@[0].addr == ip,
{
}

/// Querying any name inside the reflection zone (with no entry of that
/// name) yields an authoritative response whose sole record echoes the
/// requester's own source address — regardless of the entry table.
pub proof fn lemma_reflection_query(
    h: Handler,
    q: Query,
    upstream: Result<Seq<IpAddress>, ResolverError>,
    r: Response,
)
    requires
        gate_ok(q),
        !has_entry(h.entries@, q.name@),
        in_zone(q.name@, h.myip_zone@),
        correct_final_response(h, q, upstream, r),
    ensures
        r.authoritative,
        r.code == ResponseCode::NoError,
        r.answers@.len() == 1,
        r.answers@[0].name@ == q.name@,
        r.answers@[0].ttl == ANSWER_TTL,
        r.answers@[0].addr == q.src,
{
}

/// Querying a name inside the root zone that matches no entry and is not
/// in the reflection zone yields an authoritative name-not-found with
/// zero answer records.
pub proof fn lemma_negative_query(
    h: Handler,
    q: Query,
    upstream: Result<Seq<IpAddress>, ResolverError>,
    r: Response,
)
    requires
        gate_ok(q),
        !has_entry(h.entries@, q.name@),
        !in_zone(q.name@, h.myip_zone@),
        in_zone(q.name@, h.root_zone@),
        correct_final_response(h, q, upstream, r),
    ensures
        r.authoritative,
        r.code == ResponseCode::NXDomain,
        r.answers@.len() == 0,
{
}

/// Querying a name outside every local zone yields a non-authoritative
/// response whose records mirror, in order and value, exactly what the
/// upstream resolver returned for that name.
pub proof fn lemma_forward_query(
    h: Handler,
    q: Query,
    addrs: Seq<IpAddress>,
    r: Response,
)
    requires
        gate_ok(q),
        !has_entry(h.entries@, q.name@),
        !in_zone(q.name@, h.myip_zone@),
        !in_zone(q.name@, h.root_zone@),
        correct_final_response(h, q, Ok(addrs), r),
    ensures
        !r.authoritative,
        r.code == ResponseCode::NoError,
        r.answers@.len() == addrs.len(),
        forall|i: int|
            0 <= i < addrs.len() ==> (#[trigger] r.answers@[i]).name@ == q.name@
                && r.answers@[i].ttl == ANSWER_TTL && r.answers@[i].addr == addrs[i],
{
}

/// A query with a non-standard opcode or a non-query message type yields
/// the server-failure response with zero answer records.
pub proof fn lemma_invalid_query(
    h: Handler,
    q: Query,
    upstream: Result<Seq<IpAddress>, ResolverError>,
    r: Response,
)
    requires
        !gate_ok(q),
        correct_final_response(h, q, upstream, r),
    ensures
        r.code == ResponseCode::ServFail,
        r.answers@.len() == 0,
        !r.authoritative,
{
}

/// While the upstream resolver is in a failed state, every fallback-path
/// query yields the server-failure response with zero answer records.
/// (That a failed state is permanent is `lemma_init_write_once`.)
pub proof fn lemma_failed_resolver_query(
    h: Handler,
    q: Query,
    e: ResolverError,
    r: Response,
)
    requires
        gate_ok(q),
        route_of(h, q.name@) == Route::Forward,
        correct_final_response(h, q, Err(e), r),
    ensures
        r.code == ResponseCode::ServFail,
        r.answers@.len() == 0,
        !r.authoritative,
{
}

/// The step contracts compose into the whole request contract: a response
/// built by the local strategies, by finishing a forwarded lookup, or by
/// the top-level failure mapping meets `correct_final_response`.
pub proof fn lemma_pipeline_correct(
    h: Handler,
    q: Query,
    upstream: Result<Seq<IpAddress>, ResolverError>,
    r: Response,
)
    requires
        if !gate_ok(q) {
            is_servfail(r)
        } else if route_of(h, q.name@) != Route::Forward {
            local_response_ok(h, q, r)
        } else {
            match upstream {
                Ok(addrs) => is_forward_response(q, addrs, r),
                Err(_) => is_servfail(r),
            }
        },
    ensures
        correct_final_response(h, q, upstream, r),
{
}

} // verus!
