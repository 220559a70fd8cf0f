use vstd::prelude::*;

verus! {

/// A 32-byte account or program identity.
#[derive(Clone, Copy, Debug, PartialEq, Eq, Hash)]
pub struct Identity {
    pub bytes: [u8; 32],
}

impl Identity {
    /// Byte-wise equality of two identities.
    pub fn same(&self, other: &Identity) -> (r: bool)
        ensures
            r == (*self == *other),
    {
        let mut i: usize = 0;
        while i < 32
            invariant
                i <= 32,
                forall|j: int| 0 <= j < i ==> self.bytes[j] == other.bytes[j],
            decreases 32 - i,
        {
            if self.bytes[i] != other.bytes[i] {
                return false;
            }
            i += 1;
        }
        assert(self.bytes =~= other.bytes);
        true
    }

    /// Whether every byte of the identity is zero.
    pub open spec fn is_zero(self) -> bool {
        forall|j: int| 0 <= j < 32 ==> self.bytes[j] == 0u8
    }

    /// The identity whose bytes are all zero, which stands for "unset".
    pub fn zero() -> (r: Identity)
        ensures
            r.is_zero(),
    {
        Identity { bytes: [0u8; 32] }
    }

    /// Whether this is the all-zero identity.
    pub fn is_unset(&self) -> (r: bool)
        ensures
            r == self.is_zero(),
    {
        let mut i: usize = 0;
        while i < 32
            invariant
                i <= 32,
                forall|j: int| 0 <= j < i ==> self.bytes[j] == 0u8,
            decreases 32 - i,
        {
            if self.bytes[i] != 0 {
                return false;
            }
            i += 1;
        }
        true
    }
}

/// There is only one all-zero identity.
pub proof fn lemma_zero_is_unique(a: Identity, b: Identity)
    requires
        a.is_zero(),
        b.is_zero(),
    ensures
        a == b,
{
    assert(a.bytes =~= b.bytes);
}

/// The first place at which `wallet` stands in `list`, if it stands there.
pub fn position_of(list: &Vec<Identity>, wallet: &Identity) -> (r: Option<usize>)
    ensures
        r is Some == list@.contains(*wallet),
        r matches Some(at) ==> at < list@.len() && list@[at as int] == *wallet && forall|j: int|
            0 <= j < at ==> list@[j] != *wallet,
        r matches Some(at) ==> list@.no_duplicates() ==> list@.index_of(*wallet) == at,
{
    let mut i: usize = 0;
    while i < list.len()
        invariant
            i <= list.len(),
            forall|j: int| 0 <= j < i ==> list@[j] != *wallet,
        decreases list.len() - i,
    {
        if list[i].same(wallet) {
            return Some(i);
        }
        i += 1;
    }
    None
}

/// Whether `wallet` occurs in `list`.
pub fn contains_identity(list: &Vec<Identity>, wallet: &Identity) -> (r: bool)
    ensures
        r == list@.contains(*wallet),
{
    position_of(list, wallet).is_some()
}

} // verus!
