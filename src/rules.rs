//! The admission rule of each kind of call, as mathematics.
use vstd::prelude::*;

use crate::snapshot::expected_nonce;
use crate::types::{
    Admission, ChainAccount, ChainLogId, ChainSignature, Nonce, Reason, RecoveryFailed, Tag,
    TransactionSource, ValidationError, UNBOUNDED_LONGEVITY, UNSIGNED_TXS_LONGEVITY,
    UNSIGNED_TXS_PRIORITY,
};

verus! {

/// Pool metadata shared by every admitted bridge call.
pub open spec fn bridge_admission(after: Seq<Tag>, provides: Seq<Tag>) -> Admission {
    Admission {
        priority: UNSIGNED_TXS_PRIORITY,
        requires: after,
        provides: provides,
        longevity: UNSIGNED_TXS_LONGEVITY,
        propagate: true,
    }
}

/// `SetMiner` is accepted only from the local block author, for one block,
/// and is not gossiped.
pub open spec fn set_miner_rule(source: TransactionSource) -> Result<Admission, ValidationError> {
    if source == TransactionSource::InBlock {
        Ok(Admission { priority: 0, requires: seq![], provides: seq![], longevity: 1, propagate: false })
    } else {
        Err(ValidationError::InvalidInternalOnly)
    }
}

/// `SetNextCodeViaHash` is accepted when the code's hash is the allowed one.
pub open spec fn next_code_rule(allowed: Option<[u8; 32]>, hash: [u8; 32]) -> Result<Admission, ValidationError> {
    if allowed == Some(hash) {
        Ok(bridge_admission(seq![], seq![Tag::NextCodeHash(hash)]))
    } else {
        Err(ValidationError::InvalidNextCode)
    }
}

/// `ReceiveEvent` is accepted when the recovered signer is a validator.
pub open spec fn event_rule(
    event_id: ChainLogId,
    signature: [u8; 65],
    signer: Result<[u8; 20], RecoveryFailed>,
    quorum: Set<[u8; 20]>,
) -> Result<Admission, ValidationError> {
    match signer {
        Err(_) => Err(ValidationError::InvalidSignature),
        Ok(address) => if quorum.contains(address) {
            Ok(bridge_admission(seq![], seq![Tag::Event(event_id, signature)]))
        } else {
            Err(ValidationError::InvalidValidator)
        },
    }
}

/// `ExecTrxRequest` from a checked sender: the transaction at the expected
/// nonce is orderable at once; a later one waits for its predecessor; an
/// earlier one is a replay.
pub open spec fn trx_request_rule(
    checked: Result<ChainAccount, Reason>,
    nonce: Nonce,
    ledger: Map<ChainAccount, Nonce>,
) -> Result<Admission, ValidationError> {
    match checked {
        Err(cause) => Err(ValidationError::InvalidTrxRequest(cause)),
        Ok(sender) => {
            let expected = expected_nonce(ledger, sender);
            if nonce == expected {
                Ok(bridge_admission(seq![], seq![Tag::Request(sender, nonce)]))
            } else if nonce > expected {
                Ok(bridge_admission(
                    seq![Tag::Request(sender, (nonce - 1) as Nonce)],
                    seq![Tag::Request(sender, nonce)],
                ))
            } else {
                Err(ValidationError::InvalidTrxRequest(Reason::IncorrectNonce(nonce, expected)))
            }
        },
    }
}

/// An account is a validator's when it is the Ethereum form of a quorum address.
pub open spec fn is_validator_account(quorum: Set<[u8; 20]>, account: ChainAccount) -> bool {
    match account {
        ChainAccount::Eth(address) => quorum.contains(address),
        ChainAccount::Gate(_) => false,
    }
}

/// `PublishSignature` on a stored notice is accepted when the recovered
/// signer is a validator.
pub open spec fn notice_signature_rule(
    signature: ChainSignature,
    signer: Result<ChainAccount, RecoveryFailed>,
    quorum: Set<[u8; 20]>,
) -> Result<Admission, ValidationError> {
    match signer {
        Err(_) => Err(ValidationError::InvalidSignature),
        Ok(account) => if is_validator_account(quorum, account) {
            Ok(bridge_admission(seq![], seq![Tag::NoticeSignature(signature)]))
        } else {
            Err(ValidationError::InvalidValidator)
        },
    }
}

/// `CullNotices` is always accepted, with no validity window, and kept local.
pub open spec fn cull_notices_rule() -> Result<Admission, ValidationError> {
    Ok(Admission {
        priority: UNSIGNED_TXS_PRIORITY,
        requires: seq![],
        provides: seq![Tag::CullNotices],
        longevity: UNBOUNDED_LONGEVITY,
        propagate: false,
    })
}

} // verus!
