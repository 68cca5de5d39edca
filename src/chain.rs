//! What admission control asks of its collaborators. Admission control relies on no property
//! of their answers: its verdict is stated for every answer they may give.
use vstd::prelude::*;

use crate::types::{ChainAccount, ChainAccountSignature, ChainSignature, Nonce, Reason, RecoveryFailed};

verus! {

/// Hashing and signer recovery of the chains the bridge connects.
pub trait ChainAbstraction {
    /// Content hash of `data`.
    fn hash_bytes(&self, data: &[u8]) -> [u8; 32];

    /// Ethereum address whose key produced `signature` over `message`.
    fn recover_address(&self, message: &[u8], signature: &[u8; 65]) -> Result<[u8; 20], RecoveryFailed>;

    /// Account, on the signature's own chain, whose key produced `signature` over `message`.
    fn recover_account(&self, message: &[u8], signature: &ChainSignature) -> Result<ChainAccount, RecoveryFailed>;
}

/// Parsing of user requests and recovery of their sender.
pub trait RequestChecker {
    /// Parses `request`, checks `signature` over it and `nonce`, and returns
    /// the sender, or the cause for which the request is refused.
    fn check_trx_request(&self, request: &[u8], signature: &ChainAccountSignature, nonce: Nonce) -> Result<ChainAccount, Reason>;
}

} // verus!
