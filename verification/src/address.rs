//! Account addresses.

use vstd::prelude::*;

verus! {

/// The 32-byte identity of an account, a program or a token mint.
#[derive(Debug, Clone, Copy, PartialEq, Eq)]
pub struct Address {
    pub bytes: [u8; 32],
}

impl View for Address {
    type V = Seq<u8>;

    open spec fn view(&self) -> Seq<u8> {
        self.bytes@
    }
}

/// The address made of the 32 bytes of `bytes`.
pub open spec fn address_of(bytes: Seq<u8>) -> Address {
    Address {
        bytes: [
            bytes[0], bytes[1], bytes[2], bytes[3], bytes[4], bytes[5], bytes[6], bytes[7],
            bytes[8], bytes[9], bytes[10], bytes[11], bytes[12], bytes[13], bytes[14], bytes[15],
            bytes[16], bytes[17], bytes[18], bytes[19], bytes[20], bytes[21], bytes[22], bytes[23],
            bytes[24], bytes[25], bytes[26], bytes[27], bytes[28], bytes[29], bytes[30], bytes[31],
        ],
    }
}

/// An address is made of its own bytes.
pub proof fn lemma_address_of_view(address: Address)
    ensures
        address_of(address@) == address,
{
    assert(address_of(address@).bytes =~= address.bytes);
}

/// The address made of 32 bytes holds those bytes.
pub proof fn lemma_view_of_address(bytes: Seq<u8>)
    requires
        bytes.len() == 32,
    ensures
        address_of(bytes)@ == bytes,
{
    assert(address_of(bytes)@ =~= bytes);
}

impl Address {
    /// Whether two addresses hold the same bytes.
    pub fn same(&self, other: &Address) -> (b: bool)
        ensures
            b == (*self == *other),
            b == (self@ == other@),
    {
        let mut i: usize = 0;
        while i < 32
            invariant
                i <= 32,
                forall|j: int| 0 <= j < i ==> self.bytes[j] == other.bytes[j],
            decreases 32 - i,
        {
            if self.bytes[i] != other.bytes[i] {
                return false;
            }
            i += 1;
        }
        assert(self.bytes =~= other.bytes);
        true
    }

    /// The bytes of the address as a vector.
    pub fn to_vec(&self) -> (out: Vec<u8>)
        ensures
            out@ == self@,
    {
        bytes_of(&self.bytes)
    }
}

/// Copies a fixed array of bytes into a vector.
pub fn bytes_of<const N: usize>(bytes: &[u8; N]) -> (out: Vec<u8>)
    ensures
        out@ == bytes@,
{
    let mut out: Vec<u8> = Vec::with_capacity(N);
    let mut i: usize = 0;
    while i < N
        invariant
            i <= N,
            out@ == bytes@.take(i as int),
        decreases N - i,
    {
        out.push(bytes[i]);
        assert(bytes@.take(i + 1) =~= bytes@.take(i as int).push(bytes@[i as int]));
        i += 1;
    }
    assert(bytes@.take(N as int) =~= bytes@);
    out
}

} // verus!
