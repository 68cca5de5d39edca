use validate_trx::admission::{
    validate_cull_notices, validate_event, validate_next_code, validate_notice_signature,
    validate_set_miner, validate_trx_request,
};
use validate_trx::bytes::{bytes_eq, same_account};
use validate_trx::snapshot::{Snapshot, ValidatorKeys};
use validate_trx::types::{
    ChainAccount, ChainId, ChainLogId, ChainSignature, NoticeId, Reason, RecoveryFailed, Tag,
    TransactionSource, TrxReqParseError, ValidTransaction, UNSIGNED_TXS_LONGEVITY,
    UNSIGNED_TXS_PRIORITY,
};
use validate_trx::ValidationError;

fn bridge(requires: Vec<Tag>, provides: Vec<Tag>) -> ValidTransaction {
    ValidTransaction { priority: UNSIGNED_TXS_PRIORITY, requires, provides, longevity: UNSIGNED_TXS_LONGEVITY, propagate: true }
}

#[test]
fn constants_of_bridge_calls() {
    assert_eq!(UNSIGNED_TXS_PRIORITY, 100);
    assert_eq!(UNSIGNED_TXS_LONGEVITY, 32);
}

#[test]
fn bytes_eq_compares_every_byte() {
    let a = [1u8, 2, 3, 4];
    assert!(bytes_eq(&a, &[1u8, 2, 3, 4]));
    assert!(!bytes_eq(&a, &[1u8, 2, 3, 5]));
    assert!(!bytes_eq(&a, &[0u8, 2, 3, 4]));
    assert!(bytes_eq(&[0u8; 0], &[0u8; 0]));
}

#[test]
fn same_account_needs_same_chain() {
    assert!(same_account(&ChainAccount::Eth([1u8; 20]), &ChainAccount::Eth([1u8; 20])));
    assert!(!same_account(&ChainAccount::Eth([1u8; 20]), &ChainAccount::Eth([2u8; 20])));
    assert!(!same_account(&ChainAccount::Gate([1u8; 32]), &ChainAccount::Eth([1u8; 20])));
}

#[test]
fn snapshot_nonce_ledger() {
    let mut s = Snapshot::new();
    let a = ChainAccount::Eth([1u8; 20]);
    let b = ChainAccount::Gate([1u8; 32]);
    assert_eq!(s.nonce_of(&a), 0);
    s.set_nonce(a, 3);
    s.set_nonce(b, 8);
    assert_eq!(s.nonce_of(&a), 3);
    assert_eq!(s.nonce_of(&b), 8);
    s.set_nonce(a, 4);
    assert_eq!(s.nonce_of(&a), 4);
    assert_eq!(s.nonce_of(&b), 8);
    assert_eq!(s.nonce_of(&ChainAccount::Eth([2u8; 20])), 0);
}

#[test]
fn snapshot_notice_store() {
    let mut s = Snapshot::new();
    assert_eq!(s.notice(ChainId::Eth, NoticeId(1, 2)), None);
    s.insert_notice(ChainId::Eth, NoticeId(1, 2), vec![1, 2]);
    s.insert_notice(ChainId::Gate, NoticeId(1, 2), vec![3]);
    assert_eq!(s.notice(ChainId::Eth, NoticeId(1, 2)), Some(&vec![1, 2]));
    s.insert_notice(ChainId::Eth, NoticeId(1, 2), vec![9]);
    assert_eq!(s.notice(ChainId::Eth, NoticeId(1, 2)), Some(&vec![9]));
    assert_eq!(s.notice(ChainId::Gate, NoticeId(1, 2)), Some(&vec![3]));
    assert_eq!(s.notice(ChainId::Eth, NoticeId(2, 1)), None);
}

#[test]
fn snapshot_quorum_and_upgrade_hash() {
    let mut s = Snapshot::new();
    assert!(!s.is_quorum_member(&[5u8; 20]));
    s.insert_validator(ValidatorKeys { substrate_id: [0u8; 32], eth_address: [5u8; 20] });
    s.insert_validator(ValidatorKeys { substrate_id: [1u8; 32], eth_address: [6u8; 20] });
    assert!(s.is_quorum_member(&[5u8; 20]));
    assert!(s.is_quorum_member(&[6u8; 20]));
    assert!(!s.is_quorum_member(&[7u8; 20]));
    assert_eq!(s.allowed_next_code_hash(), None);
    s.set_allowed_next_code_hash(Some([4u8; 32]));
    assert_eq!(s.allowed_next_code_hash(), Some([4u8; 32]));
}

#[test]
fn set_miner_decision() {
    assert!(validate_set_miner(TransactionSource::InBlock).is_ok());
    assert_eq!(validate_set_miner(TransactionSource::Local), Err(ValidationError::InvalidInternalOnly));
    assert_eq!(validate_set_miner(TransactionSource::External), Err(ValidationError::InvalidInternalOnly));
}

#[test]
fn next_code_decision() {
    let mut s = Snapshot::new();
    assert_eq!(validate_next_code([1u8; 32], &s), Err(ValidationError::InvalidNextCode));
    s.set_allowed_next_code_hash(Some([1u8; 32]));
    assert_eq!(validate_next_code([1u8; 32], &s), Ok(bridge(vec![], vec![Tag::NextCodeHash([1u8; 32])])));
    assert_eq!(validate_next_code([2u8; 32], &s), Err(ValidationError::InvalidNextCode));
}

#[test]
fn event_decision() {
    let mut s = Snapshot::new();
    s.insert_validator(ValidatorKeys { substrate_id: [0u8; 32], eth_address: [5u8; 20] });
    let id = ChainLogId::Eth(3, 4);
    let sig = [9u8; 65];
    assert_eq!(validate_event(id, sig, Err(RecoveryFailed), &s), Err(ValidationError::InvalidSignature));
    assert_eq!(validate_event(id, sig, Ok([6u8; 20]), &s), Err(ValidationError::InvalidValidator));
    assert_eq!(validate_event(id, sig, Ok([5u8; 20]), &s), Ok(bridge(vec![], vec![Tag::Event(id, sig)])));
}

#[test]
fn trx_request_decision() {
    let mut s = Snapshot::new();
    let a = ChainAccount::Eth([5u8; 20]);
    let cause = Reason::TrxRequestParseError(TrxReqParseError::UnknownFunction);
    assert_eq!(validate_trx_request(Err(cause), 0, &s), Err(ValidationError::InvalidTrxRequest(cause)));
    assert_eq!(validate_trx_request(Ok(a), 0, &s), Ok(bridge(vec![], vec![Tag::Request(a, 0)])));
    assert_eq!(
        validate_trx_request(Ok(a), 1, &s),
        Ok(bridge(vec![Tag::Request(a, 0)], vec![Tag::Request(a, 1)]))
    );
    s.set_nonce(a, 10);
    assert_eq!(validate_trx_request(Ok(a), 10, &s), Ok(bridge(vec![], vec![Tag::Request(a, 10)])));
    assert_eq!(
        validate_trx_request(Ok(a), 12, &s),
        Ok(bridge(vec![Tag::Request(a, 11)], vec![Tag::Request(a, 12)]))
    );
    assert_eq!(
        validate_trx_request(Ok(a), 0, &s),
        Err(ValidationError::InvalidTrxRequest(Reason::IncorrectNonce(0, 10)))
    );
}

#[test]
fn notice_signature_decision() {
    let mut s = Snapshot::new();
    s.insert_validator(ValidatorKeys { substrate_id: [0u8; 32], eth_address: [5u8; 20] });
    let sig = ChainSignature::Eth([3u8; 65]);
    assert_eq!(validate_notice_signature(sig, Err(RecoveryFailed), &s), Err(ValidationError::InvalidSignature));
    assert_eq!(
        validate_notice_signature(sig, Ok(ChainAccount::Eth([6u8; 20])), &s),
        Err(ValidationError::InvalidValidator)
    );
    assert_eq!(
        validate_notice_signature(sig, Ok(ChainAccount::Gate([5u8; 32])), &s),
        Err(ValidationError::InvalidValidator)
    );
    assert_eq!(
        validate_notice_signature(sig, Ok(ChainAccount::Eth([5u8; 20])), &s),
        Ok(bridge(vec![], vec![Tag::NoticeSignature(sig)]))
    );
}

#[test]
fn cull_notices_decision() {
    let r = validate_cull_notices().unwrap();
    assert_eq!(r.provides, vec![Tag::CullNotices]);
    assert_eq!(r.longevity, u64::MAX);
    assert!(!r.propagate);
}
