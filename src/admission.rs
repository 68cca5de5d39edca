//! The admission controller: one decision per kind of call.
use vstd::prelude::*;

use crate::bytes::bytes_eq;
use crate::chain::{ChainAbstraction, RequestChecker};
use crate::rules::{
    cull_notices_rule, event_rule, is_validator_account, next_code_rule, notice_signature_rule,
    set_miner_rule, trx_request_rule,
};
use crate::snapshot::Snapshot;
use crate::types::{
    verdict, Call, ChainAccount, ChainLogId, ChainSignature, Nonce, Reason, RecoveryFailed, Tag,
    TransactionSource, ValidTransaction, ValidationError, UNBOUNDED_LONGEVITY,
    UNSIGNED_TXS_LONGEVITY, UNSIGNED_TXS_PRIORITY,
};

verus! {

fn single_tag(tag: Tag) -> (r: Vec<Tag>)
    ensures
        r@ == seq![tag],
{
    let mut r: Vec<Tag> = Vec::new();
    r.push(tag);
    assert(r@ =~= seq![tag]);
    r
}

fn bridge_transaction(after: Vec<Tag>, provides: Vec<Tag>) -> (r: ValidTransaction)
    ensures
        r.priority == UNSIGNED_TXS_PRIORITY,
        r.requires@ == after@,
        r.provides@ == provides@,
        r.longevity == UNSIGNED_TXS_LONGEVITY,
        r.propagate,
{
    ValidTransaction {
        priority: UNSIGNED_TXS_PRIORITY,
        requires: after,
        provides: provides,
        longevity: UNSIGNED_TXS_LONGEVITY,
        propagate: true,
    }
}

/// Decides on `SetMiner` coming from `source`.
pub fn validate_set_miner(source: TransactionSource) -> (r: Result<ValidTransaction, ValidationError>)
    ensures
        verdict(r) == set_miner_rule(source),
{
    match source {
        TransactionSource::InBlock => {
            let v = ValidTransaction {
                priority: 0,
                requires: Vec::new(),
                provides: Vec::new(),
                longevity: 1,
                propagate: false,
            };
            assert(v.requires@ =~= seq![]);
            assert(v.provides@ =~= seq![]);
            Ok(v)
        },
        _ => Err(ValidationError::InvalidInternalOnly),
    }
}

/// Decides on `SetNextCodeViaHash` for code whose content hash is `hash`.
pub fn validate_next_code(hash: [u8; 32], state: &Snapshot) -> (r: Result<ValidTransaction, ValidationError>)
    ensures
        verdict(r) == next_code_rule(state.allowed_hash(), hash),
{
    let allowed = state.allowed_next_code_hash();
    match allowed {
        Some(a) => {
            if bytes_eq(&a, &hash) {
                Ok(bridge_transaction(Vec::new(), single_tag(Tag::NextCodeHash(hash))))
            } else {
                Err(ValidationError::InvalidNextCode)
            }
        },
        None => Err(ValidationError::InvalidNextCode),
    }
}

/// Decides on `ReceiveEvent` for the event `event_id` signed with
/// `signature`, given what signer recovery returned.
pub fn validate_event(
    event_id: ChainLogId,
    signature: [u8; 65],
    signer: Result<[u8; 20], RecoveryFailed>,
    state: &Snapshot,
) -> (r: Result<ValidTransaction, ValidationError>)
    ensures
        verdict(r) == event_rule(event_id, signature, signer, state.quorum()),
{
    match signer {
        Err(_) => Err(ValidationError::InvalidSignature),
        Ok(address) => {
            if state.is_quorum_member(&address) {
                Ok(bridge_transaction(Vec::new(), single_tag(Tag::Event(event_id, signature))))
            } else {
                Err(ValidationError::InvalidValidator)
            }
        },
    }
}

/// Decides on `ExecTrxRequest` with the claimed `nonce`, given what the
/// request checker returned.
pub fn validate_trx_request(
    checked: Result<ChainAccount, Reason>,
    nonce: Nonce,
    state: &Snapshot,
) -> (r: Result<ValidTransaction, ValidationError>)
    requires
        state.wf(),
    ensures
        verdict(r) == trx_request_rule(checked, nonce, state.ledger()),
{
    match checked {
        Err(cause) => Err(ValidationError::InvalidTrxRequest(cause)),
        Ok(sender) => {
            let expected = state.nonce_of(&sender);
            if nonce == expected {
                Ok(bridge_transaction(Vec::new(), single_tag(Tag::Request(sender, nonce))))
            } else if nonce > expected {
                Ok(bridge_transaction(
                    single_tag(Tag::Request(sender, nonce - 1)),
                    single_tag(Tag::Request(sender, nonce)),
                ))
            } else {
                Err(ValidationError::InvalidTrxRequest(Reason::IncorrectNonce(nonce, expected)))
            }
        },
    }
}

/// Decides on `PublishSignature` with `signature` over a stored notice,
/// given what signer recovery returned.
pub fn validate_notice_signature(
    signature: ChainSignature,
    signer: Result<ChainAccount, RecoveryFailed>,
    state: &Snapshot,
) -> (r: Result<ValidTransaction, ValidationError>)
    ensures
        verdict(r) == notice_signature_rule(signature, signer, state.quorum()),
{
    match signer {
        Err(_) => Err(ValidationError::InvalidSignature),
        Ok(account) => {
            let member = match account {
                ChainAccount::Eth(address) => state.is_quorum_member(&address),
                ChainAccount::Gate(_) => false,
            };
            assert(member == is_validator_account(state.quorum(), account));
            if member {
                Ok(bridge_transaction(Vec::new(), single_tag(Tag::NoticeSignature(signature))))
            } else {
                Err(ValidationError::InvalidValidator)
            }
        },
    }
}

/// Decides on `CullNotices`.
pub fn validate_cull_notices() -> (r: Result<ValidTransaction, ValidationError>)
    ensures
        verdict(r) == cull_notices_rule(),
{
    let v = ValidTransaction {
        priority: UNSIGNED_TXS_PRIORITY,
        requires: Vec::new(),
        provides: single_tag(Tag::CullNotices),
        longevity: UNBOUNDED_LONGEVITY,
        propagate: false,
    };
    assert(v.requires@ =~= seq![]);
    Ok(v)
}

/// Decides whether `call`, coming from `source`, enters the pool, reading
/// `state` and asking `chain` and `requests` for hashes, signers and
/// request checks. The verdict is the rule of the call's kind applied to
/// whatever answer the collaborators gave; the notice store is consulted
/// before any signature work.
pub fn validate_unsigned<C: ChainAbstraction, R: RequestChecker>(
    source: TransactionSource,
    call: &Call,
    state: &Snapshot,
    chain: &C,
    requests: &R,
) -> (r: Result<ValidTransaction, ValidationError>)
    requires
        state.wf(),
    ensures
        match *call {
            Call::SetMiner(_) => verdict(r) == set_miner_rule(source),
            Call::SetNextCodeViaHash(_) => exists|hash: [u8; 32]|
                verdict(r) == #[trigger] next_code_rule(state.allowed_hash(), hash),
            Call::ReceiveEvent(event_id, _, signature) => exists|signer: Result<[u8; 20], RecoveryFailed>|
                verdict(r) == #[trigger] event_rule(event_id, signature, signer, state.quorum()),
            Call::ExecTrxRequest(_, _, nonce) => exists|checked: Result<ChainAccount, Reason>|
                verdict(r) == #[trigger] trx_request_rule(checked, nonce, state.ledger()),
            Call::PublishSignature(chain_id, notice_id, signature) =>
                if state.notices().contains_key((chain_id, notice_id)) {
                    exists|signer: Result<ChainAccount, RecoveryFailed>|
                        verdict(r) == #[trigger] notice_signature_rule(signature, signer, state.quorum())
                } else {
                    r == Err::<ValidTransaction, ValidationError>(ValidationError::UnknownNotice)
                },
            Call::CullNotices => verdict(r) == cull_notices_rule(),
            Call::Other => r == Err::<ValidTransaction, ValidationError>(ValidationError::InvalidCall),
        },
        call is SetMiner ==> (r is Ok <==> source == TransactionSource::InBlock),
        call is SetMiner && source != TransactionSource::InBlock ==> r == Err::<
            ValidTransaction,
            ValidationError,
        >(ValidationError::InvalidInternalOnly),
        call is SetMiner && r is Ok ==> r->Ok_0.longevity == 1,
        call is SetNextCodeViaHash && state.allowed_hash() is None ==> r == Err::<
            ValidTransaction,
            ValidationError,
        >(ValidationError::InvalidNextCode),
        call is CullNotices ==> (r matches Ok(v) && !v.propagate),
{
    match call {
        Call::SetMiner(_) => validate_set_miner(source),
        Call::SetNextCodeViaHash(code) => {
            let hash = chain.hash_bytes(code.as_slice());
            let r = validate_next_code(hash, state);
            assert(verdict(r) == next_code_rule(state.allowed_hash(), hash));
            r
        },
        Call::ReceiveEvent(event_id, payload, signature) => {
            let signer = chain.recover_address(payload.as_slice(), signature);
            let r = validate_event(*event_id, *signature, signer, state);
            assert(verdict(r) == event_rule(*event_id, *signature, signer, state.quorum()));
            r
        },
        Call::ExecTrxRequest(request, signature, nonce) => {
            let checked = requests.check_trx_request(request.as_slice(), signature, *nonce);
            let r = validate_trx_request(checked, *nonce, state);
            assert(verdict(r) == trx_request_rule(checked, *nonce, state.ledger()));
            r
        },
        Call::PublishSignature(chain_id, notice_id, signature) => {
            match state.notice(*chain_id, *notice_id) {
                None => Err(ValidationError::UnknownNotice),
                Some(encoding) => {
                    let signer = chain.recover_account(encoding.as_slice(), signature);
                    let r = validate_notice_signature(*signature, signer, state);
                    assert(verdict(r) == notice_signature_rule(*signature, signer, state.quorum()));
                    r
                },
            }
        },
        Call::CullNotices => validate_cull_notices(),
        Call::Other => Err(ValidationError::InvalidCall),
    }
}

} // verus!
