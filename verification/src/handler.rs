//! The request gate, the query router, and the per-strategy response
//! builders.
//!
//! A validated query is classified against the entry table and the zones
//! in strict precedence order — local entry, reflection, root-zone
//! negative, upstream forward — and exactly one strategy builds the
//! response. Any failure is mapped at the top to the uniform
//! server-failure response.
use vstd::prelude::*;

use crate::ip::{parse_ipv4, parse_ipv4_spec, IpAddress};
use crate::message::{
    gate_ok, is_answer, is_forward_response, is_negative_response, is_reflection_response,
    is_servfail, MessageType, OpCode, Query, Response, ResponseCode,
};
use crate::name::{in_zone, normalized, DnsName};
use crate::options::Options;
use crate::resolver::{resolve, ResolverError};
use crate::text::{split_bytes, split_on, text_bytes, views_of};
use vstd::string::StrSliceExecFns;
use vstd::string::StringSliceAdditionalSpecFns;

verus! {

/// Everything that can go wrong while serving one request. Each kind is
/// caught at the top level and turned into the server-failure response.
#[derive(Debug)]
pub enum Error {
    InvalidOpCode(OpCode),
    InvalidMessageType(MessageType),
    Io(String),
    Resolver(ResolverError),
}

/// The four handling strategies, of which the router picks exactly one.
#[derive(Clone, Copy, Debug, PartialEq, Eq, Structural)]
pub enum Route {
    LocalEntry,
    Reflection,
    DefaultNegative,
    Forward,
}

/// What the routing step asks of its caller: emit a finished response, or
/// ask the upstream resolver about the name and come back with the result.
#[derive(Debug)]
pub enum Action {
    Respond(Response),
    Forward(DnsName),
}

/// The DNS request handler: the zones derived from the configured base
/// domain, and the static entry table, all immutable once built.
#[derive(Clone, Debug)]
pub struct Handler {
    pub root_zone: DnsName,
    pub myip_zone: DnsName,
    pub hello_zone: DnsName,
    pub entries: Vec<(DnsName, IpAddress)>,
}

/// The address of the first entry whose name equals `name`, if any.
pub open spec fn lookup_entry(entries: Seq<(DnsName, IpAddress)>, name: Seq<u8>) -> Option<
    IpAddress,
>
    decreases entries.len(),
{
    if entries.len() == 0 {
        None
    } else if entries[0].0@ == name {
        Some(entries[0].1)
    } else {
        lookup_entry(entries.drop_first(), name)
    }
}

/// Some entry is named `name`.
pub open spec fn has_entry(entries: Seq<(DnsName, IpAddress)>, name: Seq<u8>) -> bool {
    lookup_entry(entries, name) is Some
}

/// The router's decision for a queried name, in strict precedence order:
/// a matching entry wins over the reflection zone, which wins over the
/// root zone; everything else is forwarded upstream.
pub open spec fn route_of(h: Handler, name: Seq<u8>) -> Route {
    if has_entry(h.entries@, name) {
        Route::LocalEntry
    } else if in_zone(name, h.myip_zone@) {
        Route::Reflection
    } else if in_zone(name, h.root_zone@) {
        Route::DefaultNegative
    } else {
        Route::Forward
    }
}

/// The local-entry strategy's response: authoritative, with exactly one
/// record binding the matched entry's address to the queried name.
pub open spec fn is_entry_response(h: Handler, q: Query, r: Response) -> bool {
    &&& r.authoritative
    &&& r.code == ResponseCode::NoError
    &&& r.answers@.len() == 1
    &&& lookup_entry(h.entries@, q.name@) matches Some(ip) && is_answer(r.answers@[0], q.name@, ip)
}

/// The response the picked strategy owes, for the three local strategies.
pub open spec fn local_response_ok(h: Handler, q: Query, r: Response) -> bool {
    match route_of(h, q.name@) {
        Route::LocalEntry => is_entry_response(h, q, r),
        Route::Reflection => is_reflection_response(q, r),
        Route::DefaultNegative => is_negative_response(r),
        Route::Forward => false,
    }
}

/// The error the request gate owes for an invalid message: the opcode is
/// checked first, then the message type, and the offending value is kept.
pub open spec fn gate_error_ok(q: Query, e: Error) -> bool {
    match e {
        Error::InvalidOpCode(op) => q.op_code != OpCode::Query && op == q.op_code,
        Error::InvalidMessageType(mt) => q.op_code == OpCode::Query && q.message_type
            != MessageType::Query && mt == q.message_type,
        _ => false,
    }
}

/// The whole contract of one served request: what the finished response
/// must look like, given the query and — on the fallback path — the
/// outcome the upstream resolver reported.
pub open spec fn correct_final_response(
    h: Handler,
    q: Query,
    upstream: Result<Seq<IpAddress>, ResolverError>,
    r: Response,
) -> bool {
    if !gate_ok(q) {
        is_servfail(r)
    } else {
        match route_of(h, q.name@) {
            Route::LocalEntry => is_entry_response(h, q, r),
            Route::Reflection => is_reflection_response(q, r),
            Route::DefaultNegative => is_negative_response(r),
            Route::Forward => match upstream {
                Ok(addrs) => is_forward_response(q, addrs, r),
                Err(_) => is_servfail(r),
            },
        }
    }
}

/// What one `name:ip` configuration entry denotes: the normalized name
/// and the IPv4 address between the first and second colon, or nothing if
/// the text is malformed. Text after a second colon is ignored.
pub open spec fn entry_spec(s: Seq<char>) -> Option<(Seq<u8>, IpAddress)> {
    let parts = split_on(text_bytes(s), 58);
    if parts.len() < 2 {
        None
    } else {
        match parse_ipv4_spec(parts[1]) {
            Some(ip) => Some((normalized(parts[0]), ip)),
            None => None,
        }
    }
}

/// The label prefix of the reflection zone, `myip.` as bytes.
pub open spec fn myip_prefix() -> Seq<u8> {
    seq![109u8, 121u8, 105u8, 112u8, 46u8]
}

/// The label prefix of the auxiliary zone, `hello.` as bytes.
pub open spec fn hello_prefix() -> Seq<u8> {
    seq![104u8, 101u8, 108u8, 108u8, 111u8, 46u8]
}

proof fn lemma_lookup_skip(entries: Seq<(DnsName, IpAddress)>, name: Seq<u8>, i: int)
    requires
        0 <= i <= entries.len(),
        forall|j: int| 0 <= j < i ==> (#[trigger] entries[j]).0@ != name,
    ensures
        lookup_entry(entries, name) == lookup_entry(entries.skip(i), name),
    decreases i,
{
    if i > 0 {
        assert(entries[0].0@ != name);
        assert(entries.drop_first().skip(i - 1) =~= entries.skip(i));
        lemma_lookup_skip(entries.drop_first(), name, i - 1);
    } else {
        assert(entries.skip(0) =~= entries);
    }
}

/// Parse one `name:ip` configuration entry, exactly as `entry_spec`
/// reads it.
pub fn parse_entry(s: &str) -> (r: Option<(DnsName, IpAddress)>)
    ensures
        match r {
            Some(p) => entry_spec(s@) matches Some(q) && p.0@ == q.0 && p.1 == q.1,
            None => entry_spec(s@) is None,
        },
{
    let bytes = s.as_bytes_vec();
    let parts = split_bytes(bytes.as_slice(), 58);
    proof {
        assert(views_of(parts@).len() == parts@.len());
    }
    if parts.len() < 2 {
        return None;
    }
    proof {
        assert(parts@[0]@ == views_of(parts@)[0]);
        assert(parts@[1]@ == views_of(parts@)[1]);
    }
    match parse_ipv4(parts[1].as_slice()) {
        Some(ip) => Some((DnsName::from_bytes(parts[0].as_slice()), ip)),
        None => None,
    }
}

/// Concatenate two byte slices.
fn concat_bytes(a: &[u8], b: &[u8]) -> (r: Vec<u8>)
    ensures
        r@ == a@ + b@,
{
    let mut out: Vec<u8> = Vec::new();
    let mut i: usize = 0;
    while i < a.len()
        invariant
            0 <= i <= a@.len(),
            out@ == a@.take(i as int),
        decreases a@.len() - i,
    {
        out.push(a[i]);
        proof {
            assert(a@.take(i + 1) =~= a@.take(i as int).push(a@[i as int]));
        }
        i = i + 1;
    }
    let mut j: usize = 0;
    while j < b.len()
        invariant
            0 <= j <= b@.len(),
            out@ == a@.take(a@.len() as int) + b@.take(j as int),
        decreases b@.len() - j,
    {
        out.push(b[j]);
        proof {
            assert(b@.take(j + 1) =~= b@.take(j as int).push(b@[j as int]));
            assert(a@.take(a@.len() as int) + b@.take(j + 1) =~= (a@.take(a@.len() as int)
                + b@.take(j as int)).push(b@[j as int]));
        }
        j = j + 1;
    }
    proof {
        assert(a@.take(a@.len() as int) =~= a@);
        assert(b@.take(b@.len() as int) =~= b@);
        assert(out@ =~= a@ + b@);
    }
    out
}

/// The bytes `myip.`.
fn myip_prefix_vec() -> (r: Vec<u8>)
    ensures
        r@ == myip_prefix(),
{
    let mut v: Vec<u8> = Vec::new();
    v.push(109);
    v.push(121);
    v.push(105);
    v.push(112);
    v.push(46);
    proof {
        assert(v@ =~= myip_prefix());
    }
    v
}

/// The bytes `hello.`.
fn hello_prefix_vec() -> (r: Vec<u8>)
    ensures
        r@ == hello_prefix(),
{
    let mut v: Vec<u8> = Vec::new();
    v.push(104);
    v.push(101);
    v.push(108);
    v.push(108);
    v.push(111);
    v.push(46);
    proof {
        assert(v@ =~= hello_prefix());
    }
    v
}

impl Handler {
    /// The zone invariant: the reflection and auxiliary zones are
    /// sub-names of the root zone, and all names are normalized.
    pub open spec fn wf(&self) -> bool {
        &&& in_zone(self.myip_zone@, self.root_zone@)
        &&& in_zone(self.hello_zone@, self.root_zone@)
        &&& self.root_zone.wf()
        &&& self.myip_zone.wf()
        &&& self.hello_zone.wf()
        &&& forall|i: int| 0 <= i < self.entries@.len() ==> (#[trigger] self.entries@[i]).0.wf()
    }

    /// Build a handler from configuration: derive the zones from the base
    /// domain and parse every `name:ip` entry. Any malformed entry makes
    /// the whole construction fail — a startup-time error, never a
    /// runtime one.
    pub fn from_options(options: &Options) -> (r: Option<Handler>)
        ensures
            match r {
                Some(h) => {
                    &&& h.wf()
                    &&& h.root_zone@ == normalized(text_bytes(options.domain@))
                    &&& h.myip_zone@ == normalized(myip_prefix() + text_bytes(options.domain@))
                    &&& h.hello_zone@ == normalized(hello_prefix() + text_bytes(options.domain@))
                    &&& h.entries@.len() == options.entries@.len()
                    &&& forall|i: int|
                        0 <= i < options.entries@.len() ==> ((#[trigger] entry_spec(
                            options.entries@[i]@,
                        )) matches Some(p) && h.entries@[i].0@ == p.0 && h.entries@[i].1 == p.1)
                },
                None => exists|i: int|
                    0 <= i < options.entries@.len() && (#[trigger] entry_spec(
                        options.entries@[i]@,
                    )) is None,
            },
    {
        let domain_bytes = options.domain.as_str().as_bytes_vec();
        let root_zone = DnsName::from_bytes(domain_bytes.as_slice());
        let mp = myip_prefix_vec();
        let myip_full = concat_bytes(mp.as_slice(), domain_bytes.as_slice());
        let myip_zone = DnsName::from_bytes(myip_full.as_slice());
        let hp = hello_prefix_vec();
        let hello_full = concat_bytes(hp.as_slice(), domain_bytes.as_slice());
        let hello_zone = DnsName::from_bytes(hello_full.as_slice());
        proof {
            crate::name::lemma_prefixed_name_in_zone(myip_prefix(), text_bytes(options.domain@));
            crate::name::lemma_prefixed_name_in_zone(hello_prefix(), text_bytes(options.domain@));
        }
        let mut entries: Vec<(DnsName, IpAddress)> = Vec::new();
        let mut i: usize = 0;
        while i < options.entries.len()
            invariant
                0 <= i <= options.entries@.len(),
                entries@.len() == i,
                forall|j: int|
                    0 <= j < i ==> ((#[trigger] entry_spec(options.entries@[j]@)) matches Some(p)
                        && entries@[j].0@ == p.0 && entries@[j].1 == p.1),
                forall|j: int| 0 <= j < i ==> (#[trigger] entries@[j]).0.wf(),
            decreases options.entries@.len() - i,
        {
            match parse_entry(options.entries[i].as_str()) {
                Some(p) => entries.push(p),
                None => {
                    return None;
                },
            }
            i = i + 1;
        }
        Some(Handler { root_zone, myip_zone, hello_zone, entries })
    }

    /// The address of the first entry named `name`, if any.
    pub fn find_entry(&self, name: &DnsName) -> (r: Option<IpAddress>)
        ensures
            r == lookup_entry(self.entries@, name@),
    {
        let mut i: usize = 0;
        while i < self.entries.len()
            invariant
                0 <= i <= self.entries@.len(),
                forall|j: int| 0 <= j < i ==> (#[trigger] self.entries@[j]).0@ != name@,
            decreases self.entries@.len() - i,
        {
            let hit = self.entries[i].0.eq_name(name);
            if hit {
                proof {
                    lemma_lookup_skip(self.entries@, name@, i as int);
                    assert(self.entries@.skip(i as int)[0] == self.entries@[i as int]);
                }
                return Some(self.entries[i].1);
            }
            i = i + 1;
        }
        proof {
            lemma_lookup_skip(self.entries@, name@, self.entries@.len() as int);
            assert(self.entries@.skip(self.entries@.len() as int) =~= Seq::<(
                DnsName,
                IpAddress,
            )>::empty());
        }
        None
    }

    /// Whether the queried name matches some entry in the table.
    pub fn is_query_in_entries(&self, query_name: &DnsName) -> (r: bool)
        ensures
            r == has_entry(self.entries@, query_name@),
    {
        self.find_entry(query_name).is_some()
    }

    /// Local-entry strategy: answer from the matched entry, with the
    /// authoritative flag set.
    pub fn do_handle_request_entry(&self, request: &Query) -> (r: Response)
        requires
            has_entry(self.entries@, request.name@),
        ensures
            is_entry_response(*self, *request, r),
    {
        let ip = self.find_entry(&request.name).unwrap();
        Response::single_answer(&request.name, ip)
    }

    /// Reflection strategy: echo the requester's own source address under
    /// the queried name, ignoring the entry table.
    pub fn do_handle_request_myip(&self, request: &Query) -> (r: Response)
        ensures
            is_reflection_response(*request, r),
    {
        Response::single_answer(&request.name, request.src)
    }

    /// Default-negative strategy: an authoritative name-not-found with no
    /// answer records — within our zone, but no such record.
    pub fn do_handle_request_default(&self, _request: &Query) -> (r: Response)
        ensures
            is_negative_response(r),
    {
        Response::negative()
    }

    /// Upstream-forward strategy, once the resolver has reported: mirror
    /// its records with the authoritative flag cleared, or pass its
    /// failure outward.
    pub fn do_handle_request_other(&self, request: &Query, lookup: Result<
        Vec<IpAddress>,
        ResolverError,
    >) -> (r: Result<Response, Error>)
        ensures
            match r {
                Ok(resp) => lookup matches Ok(addrs) && is_forward_response(
                    *request,
                    addrs@,
                    resp,
                ),
                Err(e) => e matches Error::Resolver(re) && lookup matches Err(le) && re == le,
            },
    {
        match resolve(&request.name, lookup) {
            Ok(records) => Ok(
                Response { authoritative: false, code: ResponseCode::NoError, answers: records },
            ),
            Err(e) => Err(Error::Resolver(e)),
        }
    }

    /// Gate and route one request: reject anything that is not a standard
    /// query, then pick exactly one strategy in precedence order and
    /// either build the response or ask for an upstream lookup.
    pub fn do_handle_request(&self, request: &Query) -> (r: Result<Action, Error>)
        ensures
            match r {
                Ok(a) => gate_ok(*request) && match a {
                    Action::Respond(resp) => route_of(*self, request.name@) != Route::Forward
                        && local_response_ok(*self, *request, resp) && forall|u:
                        Result<Seq<IpAddress>, ResolverError>|
                        #[trigger] correct_final_response(*self, *request, u, resp),
                    Action::Forward(n) => route_of(*self, request.name@) == Route::Forward && n@
                        == request.name@,
                },
                Err(e) => !gate_ok(*request) && gate_error_ok(*request, e),
            },
    {
        if request.op_code != OpCode::Query {
            return Err(Error::InvalidOpCode(request.op_code));
        }
        if request.message_type != MessageType::Query {
            return Err(Error::InvalidMessageType(request.message_type));
        }
        if self.is_query_in_entries(&request.name) {
            Ok(Action::Respond(self.do_handle_request_entry(request)))
        } else if self.myip_zone.zone_of(&request.name) {
            Ok(Action::Respond(self.do_handle_request_myip(request)))
        } else if self.root_zone.zone_of(&request.name) {
            Ok(Action::Respond(self.do_handle_request_default(request)))
        } else {
            Ok(Action::Forward(request.name.clone()))
        }
    }

    /// Top-level failure mapping: a successfully built response passes
    /// through unchanged; any error, of any kind, becomes the uniform
    /// server-failure response.
    pub fn handle_request(&self, outcome: Result<Response, Error>) -> (r: Response)
        ensures
            match outcome {
                Ok(resp) => r == resp,
                Err(_) => is_servfail(r),
            },
    {
        match outcome {
            Ok(resp) => resp,
            Err(_e) => Response::servfail(),
        }
    }
}

} // verus!
