//! The upstream-resolution component's decision logic.
//!
//! The underlying recursive client is constructed at most once per process;
//! the outcome of that construction is a write-once state cell, and a
//! cached construction failure is handed back to every later caller.
//! Performing the construction and the network lookup themselves is the
//! surrounding runtime's task; the functions here decide what each state
//! means for a caller and turn a lookup's outcome into answer records.
use vstd::prelude::*;

use crate::ip::IpAddress;
use crate::message::{is_answer, DnsRecord, ANSWER_TTL};
use crate::name::DnsName;

verus! {

/// Why the upstream resolver could not supply addresses: its one-time
/// construction failed, or this particular lookup failed.
#[derive(Debug)]
pub enum ResolverError {
    Init(String),
    Lookup(String),
}

/// The two reasons carry the same diagnostic text and the same kind.
pub open spec fn same_error(a: ResolverError, b: ResolverError) -> bool {
    match (a, b) {
        (ResolverError::Init(x), ResolverError::Init(y)) => x@ == y@,
        (ResolverError::Lookup(x), ResolverError::Lookup(y)) => x@ == y@,
        _ => false,
    }
}

impl Clone for ResolverError {
    /// A clone keeps the kind and the diagnostic text.
    fn clone(&self) -> (r: Self)
        ensures
            same_error(*self, r),
    {
        match self {
            ResolverError::Init(m) => ResolverError::Init(m.clone()),
            ResolverError::Lookup(m) => ResolverError::Lookup(m.clone()),
        }
    }
}

/// The process-wide state of the upstream client: not yet constructed,
/// constructed and usable, or failed to construct (with the reason kept).
#[derive(Debug)]
pub enum ResolverState {
    Uninitialized,
    Ready,
    FailedInit(ResolverError),
}

/// The state after an initialization outcome is recorded: only the very
/// first outcome counts; a terminal state is never overwritten.
pub open spec fn next_state(s: ResolverState, outcome: Result<(), ResolverError>) -> ResolverState {
    match s {
        ResolverState::Uninitialized => match outcome {
            Ok(()) => ResolverState::Ready,
            Err(e) => ResolverState::FailedInit(e),
        },
        _ => s,
    }
}

impl ResolverState {
    /// The one-time transition has happened, one way or the other.
    pub open spec fn is_terminal(&self) -> bool {
        !(self matches ResolverState::Uninitialized)
    }

    /// Record the outcome of the single construction attempt. A second
    /// outcome, whatever it is, leaves the state untouched.
    pub fn apply_init(&mut self, outcome: Result<(), ResolverError>)
        ensures
            *final(self) == next_state(*old(self), outcome),
            final(self).is_terminal(),
            old(self).is_terminal() ==> *final(self) == *old(self),
    {
        match self {
            ResolverState::Uninitialized => {
                match outcome {
                    Ok(()) => {
                        *self = ResolverState::Ready;
                    },
                    Err(e) => {
                        *self = ResolverState::FailedInit(e);
                    },
                }
            },
            _ => {},
        }
    }

    /// What a terminal state means for a caller: go ahead and look up, or
    /// take the cached construction failure, never a fresh attempt.
    pub fn cached_result(&self) -> (r: Result<(), ResolverError>)
        requires
            self.is_terminal(),
        ensures
            match (self, r) {
                (ResolverState::Ready, Ok(())) => true,
                (ResolverState::FailedInit(e), Err(out)) => same_error(*e, out),
                _ => false,
            },
    {
        match self {
            ResolverState::Ready => Ok(()),
            ResolverState::FailedInit(e) => Err(e.clone()),
            ResolverState::Uninitialized => Err(
                ResolverError::Init(String::new()),
            ),
        }
    }
}

/// A terminal state is forever: recording any further outcome changes
/// nothing, so a cached construction failure is served for the rest of
/// the process lifetime.
pub proof fn lemma_init_write_once(s: ResolverState, outcome: Result<(), ResolverError>)
    requires
        s.is_terminal(),
    ensures
        next_state(s, outcome) == s,
{
}

/// The records a completed upstream lookup yields for the queried name:
/// one record per address, in the upstream's order, each bound to the
/// originally queried name with the fixed time-to-live.
pub open spec fn forward_records_ok(name: Seq<u8>, addrs: Seq<IpAddress>, records: Seq<
    DnsRecord,
>) -> bool {
    &&& records.len() == addrs.len()
    &&& forall|i: int| 0 <= i < addrs.len() ==> is_answer(#[trigger] records[i], name, addrs[i])
}

/// Turn the outcome of one upstream address lookup into answer records
/// bound to the queried name, or pass its failure through unchanged.
pub fn resolve(name: &DnsName, lookup: Result<Vec<IpAddress>, ResolverError>) -> (r: Result<
    Vec<DnsRecord>,
    ResolverError,
>)
    ensures
        match r {
            Ok(records) => lookup matches Ok(addrs) && forward_records_ok(
                name@,
                addrs@,
                records@,
            ),
            Err(e) => lookup matches Err(le) && e == le,
        },
{
    match lookup {
        Err(e) => Err(e),
        Ok(addrs) => {
            let mut records: Vec<DnsRecord> = Vec::new();
            let mut i: usize = 0;
            while i < addrs.len()
                invariant
                    0 <= i <= addrs@.len(),
                    records@.len() == i,
                    forall|j: int| 0 <= j < i ==> is_answer(
                        #[trigger] records@[j],
                        name@,
                        addrs@[j],
                    ),
                decreases addrs@.len() - i,
            {
                records.push(DnsRecord { name: name.clone(), ttl: ANSWER_TTL, addr: addrs[i] });
                i = i + 1;
            }
            Ok(records)
        },
    }
}

} // verus!
