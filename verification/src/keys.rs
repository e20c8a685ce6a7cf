use vstd::prelude::*;

verus! {

broadcast use vstd::array::group_array_axioms;

/// Compares two 32-byte strings byte by byte.
pub fn bytes32_eq(a: &[u8; 32], b: &[u8; 32]) -> (r: bool)
    ensures
        r == (*a == *b),
{
    let mut i: usize = 0;
    while i < 32
        invariant
            0 <= i <= 32,
            forall|j: int| 0 <= j < i ==> a@[j] == b@[j],
        decreases 32 - i,
    {
        if a[i] != b[i] {
            return false;
        }
        i = i + 1;
    }
    assert(*a =~= *b);
    true
}

/// A key that can be compared at run time with the meaning of spec equality.
pub trait SameKey: Sized {
    fn same(&self, other: &Self) -> (r: bool)
        ensures
            r == (*self == *other),
    ;
}

/// The public key of a user, as the 32 bytes the signature scheme uses.
#[derive(Clone, Copy, Debug)]
pub struct PublicKey {
    pub bytes: [u8; 32],
}

/// A 32-byte digest: the hash of a signed transaction message.
#[derive(Clone, Copy, Debug)]
pub struct Digest {
    pub bytes: [u8; 32],
}

impl PublicKey {
    pub fn new(bytes: [u8; 32]) -> (k: PublicKey)
        ensures
            k.bytes == bytes,
    {
        PublicKey { bytes }
    }
}

impl Digest {
    pub fn new(bytes: [u8; 32]) -> (h: Digest)
        ensures
            h.bytes == bytes,
    {
        Digest { bytes }
    }
}

impl SameKey for PublicKey {
    fn same(&self, other: &Self) -> (r: bool) {
        bytes32_eq(&self.bytes, &other.bytes)
    }
}

impl SameKey for Digest {
    fn same(&self, other: &Self) -> (r: bool) {
        bytes32_eq(&self.bytes, &other.bytes)
    }
}

} // verus!
