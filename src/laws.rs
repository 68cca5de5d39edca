//! Properties of the admission rules, for every input.
use vstd::prelude::*;

use crate::rules::{
    cull_notices_rule, event_rule, next_code_rule, set_miner_rule, trx_request_rule,
};
use crate::snapshot::expected_nonce;
use crate::types::{
    Admission, ChainAccount, ChainLogId, Nonce, Reason, RecoveryFailed, Tag, TransactionSource,
    ValidationError,
};

verus! {

/// `SetMiner` is refused from every source but the local block author, and
/// from the block author it is always accepted, valid for one block.
pub proof fn lemma_set_miner_only_from_block_author(source: TransactionSource)
    ensures
        source != TransactionSource::InBlock ==> set_miner_rule(source) == Err::<
            Admission,
            ValidationError,
        >(ValidationError::InvalidInternalOnly),
        source == TransactionSource::InBlock ==> (set_miner_rule(source) matches Ok(a) && a.longevity == 1),
{
}

/// New code is accepted exactly when its hash is the allowed one, and then
/// it provides that hash; with no allowed hash every code is refused.
pub proof fn lemma_next_code_needs_allowed_hash(allowed: Option<[u8; 32]>, hash: [u8; 32])
    ensures
        next_code_rule(allowed, hash) is Ok <==> allowed == Some(hash),
        next_code_rule(allowed, hash) matches Ok(a) ==> a.provides == seq![Tag::NextCodeHash(hash)],
        allowed is None ==> next_code_rule(allowed, hash) == Err::<Admission, ValidationError>(
            ValidationError::InvalidNextCode,
        ),
{
}

/// An event whose signature yields no signer is refused as badly signed,
/// whatever the event and whatever the validator set.
pub proof fn lemma_unrecoverable_event_signature(
    event_id: ChainLogId,
    signature: [u8; 65],
    failure: RecoveryFailed,
    quorum: Set<[u8; 20]>,
)
    ensures
        event_rule(event_id, signature, Err(failure), quorum) == Err::<
            Admission,
            ValidationError,
        >(ValidationError::InvalidSignature),
{
}

/// An event signed by a non-validator is refused; one signed by a validator
/// is accepted and provides the event id with its signature.
pub proof fn lemma_event_signer_must_be_validator(
    event_id: ChainLogId,
    signature: [u8; 65],
    signer: [u8; 20],
    quorum: Set<[u8; 20]>,
)
    ensures
        !quorum.contains(signer) ==> event_rule(event_id, signature, Ok(signer), quorum) == Err::<
            Admission,
            ValidationError,
        >(ValidationError::InvalidValidator),
        quorum.contains(signer) ==> (event_rule(event_id, signature, Ok(signer), quorum) matches Ok(a)
            && a.provides == seq![Tag::Event(event_id, signature)]),
{
}

/// A request at the expected nonce requires nothing; one a step ahead
/// requires its predecessor; a stale one, or one the checker refused, is
/// refused as a malformed request.
pub proof fn lemma_request_nonce_sequencing(
    sender: ChainAccount,
    nonce: Nonce,
    ledger: Map<ChainAccount, Nonce>,
    cause: Reason,
)
    ensures
        expected_nonce(ledger, sender) == nonce ==> (trx_request_rule(Ok(sender), nonce, ledger) matches Ok(a)
            && a.requires.len() == 0 && a.provides == seq![Tag::Request(sender, nonce)]),
        expected_nonce(ledger, sender) == nonce - 1 ==> (trx_request_rule(Ok(sender), nonce, ledger) matches Ok(a)
            && a.requires == seq![Tag::Request(sender, (nonce - 1) as Nonce)]
            && a.provides == seq![Tag::Request(sender, nonce)]),
        expected_nonce(ledger, sender) > nonce ==> trx_request_rule(Ok(sender), nonce, ledger) == Err::<
            Admission,
            ValidationError,
        >(ValidationError::InvalidTrxRequest(Reason::IncorrectNonce(nonce, expected_nonce(ledger, sender)))),
        trx_request_rule(Err(cause), nonce, ledger) == Err::<Admission, ValidationError>(
            ValidationError::InvalidTrxRequest(cause),
        ),
{
}

/// Culling notices is always accepted and never gossiped.
pub proof fn lemma_cull_notices_kept_local()
    ensures
        cull_notices_rule() matches Ok(a) && !a.propagate,
{
}

} // verus!
