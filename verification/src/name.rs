//! Domain names in normalized form.
//!
//! All zone and entry comparisons are case-insensitive, so a name is kept
//! as its normalized spelling: ASCII letters lowercased and a single
//! trailing root dot removed. A zone is a name together with all its
//! sub-names; `in_zone` is the containment test the router uses.
use vstd::prelude::*;

use crate::text::{bytes_eq, is_lower, lower_byte, to_lower};
use vstd::string::StrSliceExecFns;
use vstd::string::StringSliceAdditionalSpecFns;

verus! {

/// The normalized spelling of a raw name: every byte lowercased, and one
/// trailing dot (the explicit root label of a fully qualified name) removed.
pub open spec fn normalized(s: Seq<u8>) -> Seq<u8> {
    let l = s.map_values(|b: u8| lower_byte(b));
    if l.len() > 0 && l.last() == 46 {
        l.drop_last()
    } else {
        l
    }
}

/// A byte sequence that contains no ASCII uppercase letter.
pub open spec fn all_lower(s: Seq<u8>) -> bool {
    forall|i: int| 0 <= i < s.len() ==> is_lower(#[trigger] s[i])
}

/// `name` lies in the zone rooted at `zone`: it is the zone name itself or
/// a sub-name of it (a longer name that continues with a label boundary).
/// The empty zone is the DNS root, which contains every name.
pub open spec fn in_zone(name: Seq<u8>, zone: Seq<u8>) -> bool {
    ||| zone.len() == 0
    ||| name == zone
    ||| (name.len() > zone.len() && name[name.len() - zone.len() - 1] == 46
        && name.subrange(name.len() - zone.len(), name.len() as int) == zone)
}

/// A domain name, held in normalized form: no uppercase ASCII letters.
#[derive(Debug)]
pub struct DnsName {
    bytes: Vec<u8>,
}

impl View for DnsName {
    type V = Seq<u8>;

    closed spec fn view(&self) -> Seq<u8> {
        self.bytes@
    }
}

pub proof fn lemma_normalized_lower(s: Seq<u8>)
    ensures
        all_lower(normalized(s)),
{
    let l = s.map_values(|b: u8| lower_byte(b));
    assert forall|i: int| 0 <= i < l.len() implies is_lower(#[trigger] l[i]) by {
        assert(l[i] == lower_byte(s[i]));
    }
}

/// Lowercase every byte of a slice.
fn lower_all(v: &[u8]) -> (r: Vec<u8>)
    ensures
        r@ == v@.map_values(|b: u8| lower_byte(b)),
{
    let mut out: Vec<u8> = Vec::new();
    let mut i: usize = 0;
    while i < v.len()
        invariant
            0 <= i <= v@.len(),
            out@ == v@.take(i as int).map_values(|b: u8| lower_byte(b)),
        decreases v@.len() - i,
    {
        out.push(to_lower(v[i]));
        proof {
            assert(v@.take(i + 1).map_values(|b: u8| lower_byte(b)) =~= v@.take(i as int)
                .map_values(|b: u8| lower_byte(b)).push(lower_byte(v@[i as int])));
        }
        i = i + 1;
    }
    proof {
        assert(v@.take(v@.len() as int) =~= v@);
    }
    out
}

impl DnsName {
    /// The name holds only lowercase bytes.
    pub open spec fn wf(&self) -> bool {
        all_lower(self@)
    }

    /// Build a name from raw bytes, normalizing the spelling.
    pub fn from_bytes(v: &[u8]) -> (r: DnsName)
        ensures
            r@ == normalized(v@),
            r.wf(),
    {
        let mut out = lower_all(v);
        if out.len() > 0 && out[out.len() - 1] == 46 {
            out.pop();
            proof {
                assert(out@ =~= normalized(v@));
            }
        }
        proof {
            lemma_normalized_lower(v@);
        }
        DnsName { bytes: out }
    }

    /// Build a name from text, normalizing the spelling of its bytes.
    pub fn from_text(s: &str) -> (r: DnsName)
        ensures
            r@ == normalized(s.spec_bytes()),
            r.wf(),
    {
        let v = s.as_bytes_vec();
        DnsName::from_bytes(v.as_slice())
    }

    /// The normalized bytes of the name.
    pub fn as_bytes(&self) -> (r: &[u8])
        ensures
            r@ == self@,
    {
        self.bytes.as_slice()
    }

    /// Names are equal exactly when their normalized spellings are.
    pub fn eq_name(&self, other: &DnsName) -> (r: bool)
        ensures
            r == (self@ == other@),
    {
        bytes_eq(self.bytes.as_slice(), other.bytes.as_slice())
    }

    /// `self` taken as a zone contains `name`: mirrors `in_zone`.
    pub fn zone_of(&self, name: &DnsName) -> (r: bool)
        ensures
            r == in_zone(name@, self@),
    {
        if self.bytes.len() == 0 {
            return true;
        }
        if bytes_eq(name.bytes.as_slice(), self.bytes.as_slice()) {
            return true;
        }
        if name.bytes.len() > self.bytes.len() {
            let start = name.bytes.len() - self.bytes.len();
            if name.bytes[start - 1] == 46 {
                let suffix = vstd::slice::slice_subrange(
                    name.bytes.as_slice(),
                    start,
                    name.bytes.len(),
                );
                return bytes_eq(suffix, self.bytes.as_slice());
            }
        }
        false
    }
}

impl Clone for DnsName {
    /// A clone keeps the normalized spelling.
    fn clone(&self) -> (r: Self)
        ensures
            r@ == self@,
    {
        DnsName { bytes: vstd::slice::slice_to_vec(self.bytes.as_slice()) }
    }
}

/// Prefixing a label sequence such as `myip.` onto a raw domain yields a
/// name inside the zone of the domain itself, whatever raw spelling the
/// domain had: the zone invariant behind the handler's derived zones.
pub proof fn lemma_prefixed_name_in_zone(p: Seq<u8>, d: Seq<u8>)
    requires
        p.len() > 0,
        p.last() == 46,
        all_lower(p),
    ensures
        in_zone(normalized(p + d), normalized(d)),
{
    let f = |b: u8| lower_byte(b);
    let ld = d.map_values(f);
    let lpd = (p + d).map_values(f);
    assert(lpd =~= p + ld) by {
        assert forall|i: int| 0 <= i < p.len() implies lpd[i] == p[i] by {
            assert(lpd[i] == lower_byte(p[i]));
            assert(is_lower(p[i]));
        }
        assert forall|i: int| p.len() <= i < lpd.len() implies lpd[i] == ld[i - p.len()] by {
            assert(lpd[i] == lower_byte((p + d)[i]));
        }
    }
    if d.len() == 0 {
        assert(normalized(d).len() == 0);
    } else {
        assert(lpd.len() == p.len() + ld.len());
        assert(lpd.last() == ld.last());
        if ld.last() == 46 {
            assert(normalized(p + d) =~= p + ld.drop_last());
            assert(normalized(d) =~= ld.drop_last());
            lemma_prefix_plus_suffix_in_zone(p, ld.drop_last());
        } else {
            assert(normalized(p + d) =~= p + ld);
            assert(normalized(d) =~= ld);
            lemma_prefix_plus_suffix_in_zone(p, ld);
        }
    }
}

proof fn lemma_prefix_plus_suffix_in_zone(p: Seq<u8>, z: Seq<u8>)
    requires
        p.len() > 0,
        p.last() == 46,
    ensures
        in_zone(p + z, z),
{
    if z.len() == 0 {
    } else {
        let n = p + z;
        assert(n.len() > z.len());
        assert(n[n.len() - z.len() - 1] == p.last());
        assert(n.subrange(n.len() - z.len(), n.len() as int) =~= z);
    }
}

} // verus!
