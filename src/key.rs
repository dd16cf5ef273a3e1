use vstd::prelude::*;

verus! {

/// A 32-byte public identity or derived storage address.
#[derive(Clone, Copy, Debug, Eq)]
pub struct Pubkey(pub [u8; 32]);

impl View for Pubkey {
    type V = Seq<u8>;

    open spec fn view(&self) -> Seq<u8> {
        self.0@
    }
}

/// Lexicographic order on byte strings: `a` comes strictly before `b`.
pub open spec fn bytes_lt(a: Seq<u8>, b: Seq<u8>) -> bool {
    exists|i: int|
        0 <= i < a.len() && i < b.len() && a[i] < b[i] && a.subrange(0, i) == b.subrange(0, i)
}

impl Pubkey {
    /// Strict lexicographic comparison of the key bytes, the order in which
    /// identities are sorted.
    pub fn lt(&self, other: &Pubkey) -> (r: bool)
        ensures
            r == bytes_lt(self@, other@),
    {
        let mut i: usize = 0;
        while i < 32
            invariant
                0 <= i <= 32,
                self@.len() == 32,
                other@.len() == 32,
                self@.subrange(0, i as int) == other@.subrange(0, i as int),
            decreases 32 - i,
        {
            let a = self.0[i];
            let b = other.0[i];
            if a != b {
                if a < b {
                    return true;
                } else {
                    assert forall|j: int| 0 <= j < 32 && self@[j] < other@[j]
                        implies self@.subrange(0, j) != other@.subrange(0, j) by {
                        if j > i {
                            assert(self@.subrange(0, j)[i as int] != other@.subrange(0, j)[i as int]);
                        } else if j < i {
                            assert(self@.subrange(0, i as int)[j] == other@.subrange(0, i as int)[j]);
                        }
                    }
                    return false;
                }
            }
            assert(self@.subrange(0, i + 1) =~= self@.subrange(0, i as int).push(a));
            assert(other@.subrange(0, i + 1) =~= other@.subrange(0, i as int).push(b));
            i = i + 1;
        }
        assert(self@ =~= self@.subrange(0, 32));
        assert(other@ =~= other@.subrange(0, 32));
        false
    }

}

impl PartialEq for Pubkey {
    fn eq(&self, other: &Pubkey) -> (r: bool) {
        let mut i: usize = 0;
        while i < 32
            invariant
                0 <= i <= 32,
                forall|j: int| 0 <= j < i ==> self.0[j] == other.0[j],
            decreases 32 - i,
        {
            if self.0[i] != other.0[i] {
                return false;
            }
            i = i + 1;
        }
        assert(self.0@ =~= other.0@);
        true
    }
}

impl vstd::std_specs::cmp::PartialEqSpecImpl for Pubkey {
    open spec fn obeys_eq_spec() -> bool {
        true
    }

    open spec fn eq_spec(&self, other: &Pubkey) -> bool {
        self@ == other@
    }
}

proof fn lemma_first_difference(a: Seq<u8>, b: Seq<u8>, i: int)
    requires
        a.len() == b.len(),
        0 <= i <= a.len(),
        a.subrange(0, i) == b.subrange(0, i),
        a != b,
    ensures
        bytes_lt(a, b) || bytes_lt(b, a),
    decreases a.len() - i,
{
    if i == a.len() {
        assert(a =~= a.subrange(0, i));
        assert(b =~= b.subrange(0, i));
    } else if a[i] != b[i] {
        if a[i] < b[i] {
            assert(bytes_lt(a, b));
        } else {
            assert(bytes_lt(b, a));
        }
    } else {
        assert(a.subrange(0, i + 1) =~= a.subrange(0, i).push(a[i]));
        assert(b.subrange(0, i + 1) =~= b.subrange(0, i).push(b[i]));
        lemma_first_difference(a, b, i + 1);
    }
}

/// The byte order on keys is a strict total order: of two different keys,
/// exactly one comes first.
pub proof fn lemma_lt_total(a: Pubkey, b: Pubkey)
    ensures
        a@ != b@ ==> (bytes_lt(a@, b@) || bytes_lt(b@, a@)),
        !(bytes_lt(a@, b@) && bytes_lt(b@, a@)),
{
    if a@ != b@ {
        assert(a@.subrange(0, 0) =~= b@.subrange(0, 0));
        lemma_first_difference(a@, b@, 0);
    }
    if bytes_lt(a@, b@) && bytes_lt(b@, a@) {
        let i = choose|i: int|
            0 <= i < a@.len() && i < b@.len() && a@[i] < b@[i] && a@.subrange(0, i) == b@.subrange(0, i);
        let j = choose|j: int|
            0 <= j < b@.len() && j < a@.len() && b@[j] < a@[j] && b@.subrange(0, j) == a@.subrange(0, j);
        if i < j {
            assert(a@.subrange(0, j)[i] == b@.subrange(0, j)[i]);
        } else if j < i {
            assert(a@.subrange(0, i)[j] == b@.subrange(0, i)[j]);
        }
    }
}

/// Two keys with the same bytes are the same key.
pub proof fn lemma_view_injective(a: Pubkey, b: Pubkey)
    ensures
        a@ == b@ <==> a == b,
{
    if a@ == b@ {
        assert(a.0 =~= b.0);
    }
}

} // verus!
