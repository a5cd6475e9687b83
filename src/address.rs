use vstd::prelude::*;

verus! {

/// A 32-byte public key or program address.
#[derive(Clone, Copy, Debug, PartialEq, Eq)]
pub struct Address {
    pub bytes: [u8; 32],
}

impl View for Address {
    type V = Seq<u8>;

    open spec fn view(&self) -> Seq<u8> {
        self.bytes@
    }
}

/// The bytes of this program's address.
pub const ID_BYTES: [u8; 32] = [
    5, 210, 7, 146, 231, 186, 117, 253, 26, 104, 242, 36, 143, 135, 214, 53, 241, 167, 92, 116, 32,
    11, 97, 193, 159, 37, 97, 104, 124, 0, 0, 0,
];

/// The bytes of the system program's address, the owner of every fresh account.
pub const SYSTEM_PROGRAM_ID_BYTES: [u8; 32] = [
    0, 0, 0, 0, 0, 0, 0, 0, 0, 0, 0, 0, 0, 0, 0, 0, 0, 0, 0, 0, 0, 0, 0, 0, 0, 0, 0, 0, 0, 0, 0, 0,
];

impl Address {
    pub fn new_from_array(bytes: [u8; 32]) -> (r: Address)
        ensures
            r.bytes == bytes,
    {
        Address { bytes }
    }

    /// This program's address.
    pub fn program_id() -> (r: Address)
        ensures
            r.bytes == ID_BYTES,
    {
        Address { bytes: ID_BYTES }
    }

    /// The system program's address.
    pub fn system_program_id() -> (r: Address)
        ensures
            r.bytes == SYSTEM_PROGRAM_ID_BYTES,
    {
        Address { bytes: SYSTEM_PROGRAM_ID_BYTES }
    }

    pub fn to_bytes(&self) -> (r: [u8; 32])
        ensures
            r == self.bytes,
    {
        self.bytes
    }

    pub fn as_ref(&self) -> (r: &[u8])
        ensures
            r@ == self@,
    {
        self.bytes.as_slice()
    }

    /// Byte-wise equality of two addresses.
    pub fn equals(&self, other: &Address) -> (r: bool)
        ensures
            r == (self@ == other@),
    {
        let mut i: usize = 0;
        while i < 32
            invariant
                i <= 32,
                self@.len() == 32,
                other@.len() == 32,
                forall|j: int| 0 <= j < i ==> self@[j] == other@[j],
            decreases 32 - i,
        {
            if self.bytes[i] != other.bytes[i] {
                return false;
            }
            i = i + 1;
        }
        assert(self@ =~= other@);
        true
    }
}

} // verus!
