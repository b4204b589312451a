use vstd::prelude::*;

verus! {

/// A 32-byte identity: an account address, an owner or a mint.
#[derive(Clone, Copy, Debug)]
pub struct Address {
    pub bytes: [u8; 32],
}

impl View for Address {
    type V = Seq<u8>;

    open spec fn view(&self) -> Seq<u8> {
        self.bytes@
    }
}

impl Address {
    /// The address made of the given bytes.
    pub fn new(bytes: [u8; 32]) -> (r: Address)
        ensures
            r@ == bytes@,
    {
        Address { bytes }
    }

    /// The all-zero address, which marks an unset slot.
    pub fn zero() -> (r: Address)
        ensures
            r@ == Seq::new(32, |i: int| 0u8),
    {
        let r = Address { bytes: [0u8; 32] };
        assert(r@ =~= Seq::new(32, |i: int| 0u8));
        r
    }

    /// Reads 32 bytes of `data` starting at `offset`.
    pub fn from_slice(data: &[u8], offset: usize) -> (r: Address)
        requires
            offset + 32 <= data.len(),
        ensures
            r@ == data@.subrange(offset as int, offset + 32),
    {
        let mut bytes = [0u8; 32];
        let mut i: usize = 0;
        while i < 32
            invariant
                0 <= i <= 32,
                offset + 32 <= data.len(),
                bytes@.len() == 32,
                forall|j: int| 0 <= j < i ==> bytes@[j] == data@[offset + j],
            decreases 32 - i,
        {
            bytes[i] = data[offset + i];
            i += 1;
        }
        let r = Address { bytes };
        assert(r@ =~= data@.subrange(offset as int, offset + 32));
        r
    }

    /// The bytes of this address as a vector.
    pub fn to_vec(&self) -> (r: Vec<u8>)
        ensures
            r@ == self@,
    {
        let mut v: Vec<u8> = Vec::new();
        let mut i: usize = 0;
        while i < 32
            invariant
                0 <= i <= 32,
                self@.len() == 32,
                v@ == self@.subrange(0, i as int),
            decreases 32 - i,
        {
            v.push(self.bytes[i]);
            i += 1;
            assert(v@ =~= self@.subrange(0, i as int));
        }
        assert(self@.subrange(0, 32) =~= self@);
        v
    }

    /// Whether two addresses hold the same bytes.
    pub fn same_as(&self, other: &Address) -> (r: bool)
        ensures
            r == (self@ == other@),
    {
        let mut i: usize = 0;
        while i < 32
            invariant
                0 <= i <= 32,
                self@.len() == 32,
                other@.len() == 32,
                forall|j: int| 0 <= j < i ==> self@[j] == other@[j],
            decreases 32 - i,
        {
            if self.bytes[i] != other.bytes[i] {
                return false;
            }
            i += 1;
        }
        assert(self@ =~= other@);
        true
    }

    /// Whether this address equals the 32 bytes of `data` at `offset`.
    pub fn matches_at(&self, data: &[u8], offset: usize) -> (r: bool)
        requires
            offset + 32 <= data.len(),
        ensures
            r == (self@ == data@.subrange(offset as int, offset + 32)),
    {
        let mut i: usize = 0;
        while i < 32
            invariant
                0 <= i <= 32,
                self@.len() == 32,
                offset + 32 <= data.len(),
                forall|j: int| 0 <= j < i ==> self@[j] == data@[offset + j],
            decreases 32 - i,
        {
            if self.bytes[i] != data[offset + i] {
                assert(data@.subrange(offset as int, offset + 32)[i as int] == data@[offset + i]);
                return false;
            }
            i += 1;
        }
        assert(self@ =~= data@.subrange(offset as int, offset + 32));
        true
    }
}

} // verus!
