//! Account identities: 32-byte addresses, compared byte by byte.
use vstd::prelude::*;

verus! {

/// The identity of an account on the host ledger.
#[derive(Clone, Copy, Debug, PartialEq, Eq, Hash)]
pub struct Address {
    pub bytes: [u8; 32],
}

impl View for Address {
    type V = Seq<u8>;

    open spec fn view(&self) -> Seq<u8> {
        self.bytes@
    }
}

/// How one address stands to another in byte-wise order.
#[derive(Clone, Copy, Debug, PartialEq, Eq, Structural)]
pub enum Rank {
    Before,
    Same,
    After,
}

/// `a` comes strictly before `b` in byte-wise (lexicographic) order.
pub open spec fn precedes(a: Seq<u8>, b: Seq<u8>) -> bool {
    exists|i: int|
        0 <= i < a.len() && i < b.len() && #[trigger] a[i] < b[i] && a.subrange(0, i)
            == b.subrange(0, i)
}

/// The addresses come in strictly increasing order, so none occurs twice.
pub open spec fn strictly_sorted(keys: Seq<Seq<u8>>) -> bool {
    forall|i: int, j: int| 0 <= i < j < keys.len() ==> precedes(#[trigger] keys[i], #[trigger] keys[j])
}

/// Position of `key` among `keys`, if it is there.
pub open spec fn position_of(keys: Seq<Seq<u8>>, key: Seq<u8>) -> Option<int> {
    if exists|i: int| 0 <= i < keys.len() && #[trigger] keys[i] == key {
        Some(choose|i: int| 0 <= i < keys.len() && #[trigger] keys[i] == key)
    } else {
        None
    }
}

/// No address precedes itself.
pub proof fn lemma_precedes_irreflexive(a: Seq<u8>)
    ensures
        !precedes(a, a),
{
}

/// Byte-wise order is transitive.
pub proof fn lemma_precedes_transitive(a: Seq<u8>, b: Seq<u8>, c: Seq<u8>)
    requires
        precedes(a, b),
        precedes(b, c),
    ensures
        precedes(a, c),
{
    let i = choose|i: int|
        0 <= i < a.len() && i < b.len() && #[trigger] a[i] < b[i] && a.subrange(0, i)
            == b.subrange(0, i);
    let j = choose|j: int|
        0 <= j < b.len() && j < c.len() && #[trigger] b[j] < c[j] && b.subrange(0, j)
            == c.subrange(0, j);
    let m = if i <= j { i } else { j };
    assert(a.subrange(0, m) =~= a.subrange(0, i).subrange(0, m));
    assert(b.subrange(0, m) =~= b.subrange(0, i).subrange(0, m));
    assert(b.subrange(0, m) =~= b.subrange(0, j).subrange(0, m));
    assert(c.subrange(0, m) =~= c.subrange(0, j).subrange(0, m));
    if i < j {
        assert(b.subrange(0, j)[i] == b[i]);
        assert(c.subrange(0, j)[i] == c[i]);
    } else if j < i {
        assert(a.subrange(0, i)[j] == a[j]);
        assert(b.subrange(0, i)[j] == b[j]);
    }
    assert(a[m] < c[m]);
}

/// In a strictly sorted list an address has one position at most.
pub proof fn lemma_sorted_position_unique(keys: Seq<Seq<u8>>, i: int)
    requires
        strictly_sorted(keys),
        0 <= i < keys.len(),
    ensures
        position_of(keys, keys[i]) == Some(i),
{
    let p = choose|p: int| 0 <= p < keys.len() && #[trigger] keys[p] == keys[i];
    lemma_precedes_irreflexive(keys[i]);
    if p < i {
        assert(precedes(keys[p], keys[i]));
    } else if i < p {
        assert(precedes(keys[i], keys[p]));
    }
}

impl Address {
    /// An address made of the given bytes.
    pub fn new(bytes: [u8; 32]) -> (r: Address)
        ensures
            r@ == bytes@,
    {
        Address { bytes }
    }

    /// The bytes of the address as a vector.
    pub fn to_vec(&self) -> (r: Vec<u8>)
        ensures
            r@ == self@,
    {
        let mut out: Vec<u8> = Vec::new();
        let mut i: usize = 0;
        while i < 32
            invariant
                0 <= i <= 32,
                out@ == self@.subrange(0, i as int),
            decreases 32 - i,
        {
            out.push(self.bytes[i]);
            assert(self@.subrange(0, i + 1) =~= self@.subrange(0, i as int).push(self@[i as int]));
            i += 1;
        }
        assert(self@ =~= self@.subrange(0, 32));
        out
    }

    /// Where `self` stands relative to `other` in byte-wise order.
    pub fn rank(&self, other: &Address) -> (r: Rank)
        ensures
            r == Rank::Before <==> precedes(self@, other@),
            r == Rank::Same <==> self@ == other@,
            r == Rank::After <==> precedes(other@, self@),
    {
        let mut i: usize = 0;
        while i < 32
            invariant
                0 <= i <= 32,
                self@.subrange(0, i as int) == other@.subrange(0, i as int),
            decreases 32 - i,
        {
            let x: u8 = self.bytes[i];
            let y: u8 = other.bytes[i];
            if x < y {
                proof {
                    lemma_rank_decided(self@, other@, i as int);
                }
                return Rank::Before;
            }
            if x > y {
                proof {
                    lemma_rank_decided(other@, self@, i as int);
                }
                return Rank::After;
            }
            assert(self@.subrange(0, i + 1) =~= self@.subrange(0, i as int).push(self@[i as int]));
            assert(other@.subrange(0, i + 1) =~= other@.subrange(0, i as int).push(
                other@[i as int],
            ));
            i += 1;
        }
        proof {
            assert(self@ =~= self@.subrange(0, 32));
            assert(other@ =~= other@.subrange(0, 32));
            lemma_precedes_irreflexive(self@);
        }
        Rank::Same
    }

    /// Whether both addresses hold the same bytes.
    pub fn same(&self, other: &Address) -> (r: bool)
        ensures
            r == (self@ == other@),
    {
        match self.rank(other) {
            Rank::Same => true,
            _ => false,
        }
    }
}

/// Once the first differing byte is found, the order is settled both ways.
proof fn lemma_rank_decided(a: Seq<u8>, b: Seq<u8>, i: int)
    requires
        0 <= i < a.len(),
        i < b.len(),
        a[i] < b[i],
        a.subrange(0, i) == b.subrange(0, i),
    ensures
        precedes(a, b),
        !precedes(b, a),
        a != b,
{
    if precedes(b, a) {
        let j = choose|j: int|
            0 <= j < b.len() && j < a.len() && #[trigger] b[j] < a[j] && b.subrange(0, j)
                == a.subrange(0, j);
        if j < i {
            assert(a.subrange(0, i)[j] == a[j]);
            assert(b.subrange(0, i)[j] == b[j]);
        } else if i < j {
            assert(a.subrange(0, j)[i] == a[i]);
            assert(b.subrange(0, j)[i] == b[i]);
        }
    }
}

} // verus!
