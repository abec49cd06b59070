//! Credential identifiers.

use vstd::prelude::*;

verus! {

/// A 32-byte credential identifier, the shape of an Ed25519 public key.
///
/// The library never interprets the bytes: a credential is only ever
/// compared, byte for byte, against the keys stored in a record.  Whether a
/// request was really signed by the credential it names is established by
/// the host before a transition runs.
#[derive(Clone, Copy, Debug, PartialEq, Eq)]
pub struct Pubkey {
    pub bytes: [u8; 32],
}

impl View for Pubkey {
    type V = Seq<u8>;

    open spec fn view(&self) -> Seq<u8> {
        self.bytes@
    }
}

impl Pubkey {
    pub fn new(bytes: [u8; 32]) -> (k: Pubkey)
        ensures
            k@ == bytes@,
    {
        Pubkey { bytes }
    }

    /// Byte-for-byte equality of two credentials.
    pub fn key_eq(&self, other: &Pubkey) -> (r: bool)
        ensures
            r <==> self@ == other@,
    {
        let mut i: usize = 0;
        while i < 32
            invariant
                i <= 32,
                forall|j: int| 0 <= j < i ==> self@[j] == other@[j],
            decreases 32 - i,
        {
            if self.bytes[i] != other.bytes[i] {
                return false;
            }
            i += 1;
        }
        proof {
            assert(self@ =~= other@);
        }
        true
    }
}

} // verus!
