//! Byte-level text utilities shared by name normalization and entry parsing:
//! ASCII lowercasing, byte-sequence equality, and splitting on a separator.
use vstd::prelude::*;

verus! {

/// ASCII lowercasing of a single byte: `'A'..='Z'` map to `'a'..='z'`,
/// every other byte is unchanged.
pub open spec fn lower_byte(b: u8) -> u8 {
    if 65 <= b <= 90 {
        (b + 32) as u8
    } else {
        b
    }
}

/// `true` iff the byte is not an ASCII uppercase letter.
pub open spec fn is_lower(b: u8) -> bool {
    lower_byte(b) == b
}

/// Splitting a byte sequence on a separator, in the usual sense: the
/// result always has at least one part, separators delimit (possibly
/// empty) parts, and no part contains the separator.
pub open spec fn split_on(s: Seq<u8>, sep: u8) -> Seq<Seq<u8>>
    decreases s.len(),
{
    if s.len() == 0 {
        seq![Seq::<u8>::empty()]
    } else if s[0] == sep {
        seq![Seq::<u8>::empty()].add(split_on(s.drop_first(), sep))
    } else {
        let rest = split_on(s.drop_first(), sep);
        seq![seq![s[0]].add(rest[0])].add(rest.drop_first())
    }
}

/// The bytes of a text value, as UTF-8.
pub open spec fn text_bytes(s: Seq<char>) -> Seq<u8> {
    vstd::utf8::encode_utf8(s)
}

/// The views of a sequence of byte vectors.
pub open spec fn views_of(parts: Seq<Vec<u8>>) -> Seq<Seq<u8>> {
    parts.map_values(|p: Vec<u8>| p@)
}

/// Lowercase a single byte.
pub fn to_lower(b: u8) -> (r: u8)
    ensures
        r == lower_byte(b),
{
    if 65 <= b && b <= 90 {
        b + 32
    } else {
        b
    }
}

/// Byte-sequence equality.
pub fn bytes_eq(a: &[u8], b: &[u8]) -> (r: bool)
    ensures
        r == (a@ == b@),
{
    if a.len() != b.len() {
        assert(a@.len() != b@.len());
        return false;
    }
    let mut i: usize = 0;
    while i < a.len()
        invariant
            0 <= i <= a@.len(),
            a@.len() == b@.len(),
            forall|j: int| 0 <= j < i ==> a@[j] == b@[j],
        decreases a@.len() - i,
    {
        if a[i] != b[i] {
            return false;
        }
        i = i + 1;
    }
    proof {
        assert(a@ =~= b@);
    }
    true
}

/// Split a byte slice on a separator byte, matching `split_on`.
pub fn split_bytes(s: &[u8], sep: u8) -> (parts: Vec<Vec<u8>>)
    ensures
        views_of(parts@) == split_on(s@, sep),
        parts@.len() >= 1,
    decreases s@.len(),
{
    if s.len() == 0 {
        let mut parts: Vec<Vec<u8>> = Vec::new();
        parts.push(Vec::new());
        proof {
            assert(views_of(parts@) =~~= split_on(s@, sep));
        }
        parts
    } else {
        let head = s[0];
        let tail = vstd::slice::slice_subrange(s, 1, s.len());
        proof {
            assert(tail@ =~= s@.drop_first());
        }
        let mut rest = split_bytes(tail, sep);
        if head == sep {
            rest.insert(0, Vec::new());
            proof {
                assert(views_of(rest@) =~~= split_on(s@, sep));
            }
            rest
        } else {
            let mut first = rest.remove(0);
            first.insert(0, head);
            rest.insert(0, first);
            proof {
                assert(views_of(rest@) =~~= split_on(s@, sep));
            }
            rest
        }
    }
}

} // verus!
