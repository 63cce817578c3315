use vstd::prelude::*;

verus! {

/// A 32-byte account address, held as its raw bytes.
#[derive(Clone, Copy, Debug, Default)]
pub struct Pubkey {
    pub bytes: [u8; 32],
}

impl View for Pubkey {
    type V = Seq<u8>;

    open spec fn view(&self) -> Seq<u8> {
        self.bytes@
    }
}

impl Pubkey {
    /// Builds an address from its 32 bytes.
    pub fn new_from_array(bytes: [u8; 32]) -> (r: Pubkey)
        ensures
            r@ == bytes@,
    {
        Pubkey { bytes }
    }

    /// Compares two addresses byte by byte.
    pub fn equals(&self, other: &Pubkey) -> (r: bool)
        ensures
            r == (self@ == other@),
    {
        let mut i: usize = 0;
        while i < 32
            invariant
                0 <= i <= 32,
                self@.len() == 32,
                other@.len() == 32,
                forall|j: int| 0 <= j < i ==> self@[j] == other@[j],
            decreases 32 - i,
        {
            if self.bytes[i] != other.bytes[i] {
                return false;
            }
            i = i + 1;
        }
        assert(self@ =~= other@);
        true
    }

    /// Reads an address from 32 consecutive bytes of `data`, starting at `offset`.
    pub fn read(data: &[u8], offset: usize) -> (r: Pubkey)
        requires
            offset + 32 <= data.len(),
        ensures
            r@ == data@.subrange(offset as int, offset + 32),
    {
        let mut bytes: [u8; 32] = [0u8; 32];
        let mut i: usize = 0;
        while i < 32
            invariant
                0 <= i <= 32,
                offset + 32 <= data.len(),
                bytes@.len() == 32,
                forall|j: int| 0 <= j < i ==> bytes@[j] == data@[offset + j],
            decreases 32 - i,
        {
            bytes[i] = data[offset + i];
            i = i + 1;
        }
        let r = Pubkey { bytes };
        assert(r@ =~= data@.subrange(offset as int, offset + 32));
        r
    }
}

} // verus!
