//! The content hash of a transaction: SHA-256 of its raw bytes.

use sha2::{Digest, Sha256};
use vstd::prelude::*;

verus! {

/// The SHA-256 digest of `data`.
pub uninterp spec fn sha256(data: Seq<u8>) -> Seq<u8>;

/// `Sha256` of the sha2 crate, fed `data` once and finalized: the 32 bytes it
/// gives are the SHA-256 digest of `data`.
#[verifier::external_body]
pub(crate) fn sha256_digest(data: &[u8]) -> (digest: [u8; 32])
    ensures
        digest@ == sha256(data@),
{
    Sha256::new().chain_update(data).finalize().into()
}

/// The identifier of a transaction on chain.
#[derive(Clone, Copy, Debug, PartialEq, Eq, Hash)]
pub struct TxHash(pub [u8; 32]);

impl View for TxHash {
    type V = Seq<u8>;

    open spec fn view(&self) -> Seq<u8> {
        self.0@
    }
}

impl TxHash {
    /// The hash of the raw transaction `raw`.
    pub fn of(raw: &[u8]) -> (hash: TxHash)
        ensures
            hash@ == sha256(raw@),
    {
        TxHash(sha256_digest(raw))
    }

    /// Whether two hashes are the same 32 bytes.
    pub fn same_as(&self, other: &TxHash) -> (same: bool)
        ensures
            same == (self@ == other@),
    {
        let mut i: usize = 0;
        while i < 32
            invariant
                i <= 32,
                forall|j: int| 0 <= j < i ==> self.0@[j] == other.0@[j],
            decreases 32 - i,
        {
            if self.0[i] != other.0[i] {
                return false;
            }
            i = i + 1;
        }
        assert(self@ =~= other@);
        true
    }
}

} // verus!
