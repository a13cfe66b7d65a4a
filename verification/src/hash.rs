//! Thirty-two byte identity hashes of headers and transactions.

use vstd::prelude::*;
use vstd::std_specs::cmp::PartialEqSpecImpl;

verus! {

/// The identity of a header or a transaction: thirty-two opaque bytes.
///
/// Two hashes are the same identity exactly when all their bytes agree.
#[derive(Clone, Copy, Debug, Eq, Hash)]
pub struct H256 {
    pub bytes: [u8; 32],
}

impl View for H256 {
    type V = Seq<u8>;

    open spec fn view(&self) -> Seq<u8> {
        self.bytes@
    }
}

impl PartialEq for H256 {
    fn eq(&self, other: &H256) -> (r: bool) {
        let mut i: usize = 0;
        while i < 32
            invariant
                i <= 32,
                forall|j: int| 0 <= j < i ==> self.bytes[j] == other.bytes[j],
            decreases 32 - i,
        {
            if self.bytes[i] != other.bytes[i] {
                return false;
            }
            i += 1;
        }
        assert(self.bytes =~= other.bytes);
        true
    }
}

impl PartialEqSpecImpl for H256 {
    open spec fn obeys_eq_spec() -> bool {
        true
    }

    open spec fn eq_spec(&self, other: &H256) -> bool {
        *self == *other
    }
}

impl H256 {
    /// The first eight bytes as a number, lowest byte first.
    pub open spec fn spec_prefix(&self) -> u64 {
        (self.bytes[0] + self.bytes[1] * 0x100 + self.bytes[2] * 0x1_0000 + self.bytes[3]
            * 0x100_0000 + self.bytes[4] * 0x1_0000_0000 + self.bytes[5] * 0x100_0000_0000
            + self.bytes[6] * 0x1_0000_0000_0000 + self.bytes[7] * 0x100_0000_0000_0000) as u64
    }

    /// The first eight bytes as a number, lowest byte first. Tables keyed by
    /// hash sort their entries into buckets by it.
    #[verifier::when_used_as_spec(spec_prefix)]
    pub fn prefix(&self) -> (key: u64)
        ensures
            key == self.spec_prefix(),
    {
        let b = &self.bytes;
        let b0: u64 = b[0] as u64;
        let b1: u64 = b[1] as u64;
        let b2: u64 = b[2] as u64;
        let b3: u64 = b[3] as u64;
        let b4: u64 = b[4] as u64;
        let b5: u64 = b[5] as u64;
        let b6: u64 = b[6] as u64;
        let b7: u64 = b[7] as u64;
        b0 + b1 * 0x100 + b2 * 0x1_0000 + b3 * 0x100_0000 + b4 * 0x1_0000_0000 + b5
            * 0x100_0000_0000 + b6 * 0x1_0000_0000_0000 + b7 * 0x100_0000_0000_0000
    }
}

} // verus!
