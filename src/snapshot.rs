//! A frozen, read-only view of the chain state admission control consults.
use vstd::prelude::*;

use crate::bytes::{bytes_eq, same_account};
use crate::types::{ChainAccount, ChainId, Nonce, NoticeId};

verus! {

/// A validator: its identity on this chain and its address on Ethereum.
#[derive(Clone, Copy, Debug, PartialEq, Eq)]
pub struct ValidatorKeys {
    pub substrate_id: [u8; 32],
    pub eth_address: [u8; 20],
}

/// The expected nonce of `account` in `ledger`: zero when absent.
pub open spec fn expected_nonce(ledger: Map<ChainAccount, Nonce>, account: ChainAccount) -> Nonce {
    if ledger.contains_key(account) {
        ledger[account]
    } else {
        0
    }
}


spec fn quorum_of(vs: Seq<ValidatorKeys>) -> Set<[u8; 20]> {
    Set::new(|a: [u8; 20]| exists|i: int| 0 <= i < vs.len() && #[trigger] vs[i].eth_address == a)
}

spec fn ledger_of(es: Seq<(ChainAccount, Nonce)>) -> Map<ChainAccount, Nonce> {
    Map::new(
        |a: ChainAccount| exists|i: int| 0 <= i < es.len() && #[trigger] es[i].0 == a,
        |a: ChainAccount| es[choose|i: int| 0 <= i < es.len() && #[trigger] es[i].0 == a].1,
    )
}

spec fn key_of(e: (ChainId, NoticeId, Vec<u8>)) -> (ChainId, NoticeId) {
    (e.0, e.1)
}

spec fn notice_store_of(es: Seq<(ChainId, NoticeId, Vec<u8>)>) -> Map<(ChainId, NoticeId), Seq<u8>> {
    Map::new(
        |k: (ChainId, NoticeId)| exists|i: int| 0 <= i < es.len() && #[trigger] key_of(es[i]) == k,
        |k: (ChainId, NoticeId)| es[choose|i: int| 0 <= i < es.len() && #[trigger] key_of(es[i]) == k].2@,
    )
}

spec fn accounts_unique(es: Seq<(ChainAccount, Nonce)>) -> bool {
    forall|i: int, j: int| 0 <= i < es.len() && 0 <= j < es.len() && i != j
        ==> #[trigger] es[i].0 != #[trigger] es[j].0
}

spec fn notice_keys_unique(es: Seq<(ChainId, NoticeId, Vec<u8>)>) -> bool {
    forall|i: int, j: int| 0 <= i < es.len() && 0 <= j < es.len() && i != j
        ==> key_of(#[trigger] es[i]) != key_of(#[trigger] es[j])
}

/// The state read by admission control: the allowed upgrade hash, the validator set,
/// the nonce ledger and the notice store.
pub struct Snapshot {
    allowed_next_code_hash: Option<[u8; 32]>,
    validators: Vec<ValidatorKeys>,
    nonces: Vec<(ChainAccount, Nonce)>,
    notices: Vec<(ChainId, NoticeId, Vec<u8>)>,
}

impl Snapshot {
    /// Hash of the only runtime code that may be installed, if any.
    pub closed spec fn allowed_hash(&self) -> Option<[u8; 32]> {
        self.allowed_next_code_hash
    }

    /// Ethereum addresses of the current validators.
    pub closed spec fn quorum(&self) -> Set<[u8; 20]> {
        quorum_of(self.validators@)
    }

    /// Next expected nonce of each account that has one.
    pub closed spec fn ledger(&self) -> Map<ChainAccount, Nonce> {
        ledger_of(self.nonces@)
    }

    /// Canonical encoding of each stored notice, by chain and notice id.
    pub closed spec fn notices(&self) -> Map<(ChainId, NoticeId), Seq<u8>> {
        notice_store_of(self.notices@)
    }

    /// Each account and each notice key occurs once.
    pub closed spec fn wf(&self) -> bool {
        &&& accounts_unique(self.nonces@)
        &&& notice_keys_unique(self.notices@)
    }

    /// A snapshot with no upgrade allowed, no validator, no nonce and no notice.
    pub fn new() -> (r: Snapshot)
        ensures
            r.wf(),
            r.allowed_hash() == None::<[u8; 32]>,
            r.quorum() == Set::<[u8; 20]>::empty(),
            r.ledger() == Map::<ChainAccount, Nonce>::empty(),
            r.notices() == Map::<(ChainId, NoticeId), Seq<u8>>::empty(),
    {
        let r = Snapshot {
            allowed_next_code_hash: None,
            validators: Vec::new(),
            nonces: Vec::new(),
            notices: Vec::new(),
        };
        assert(quorum_of(r.validators@) =~= Set::<[u8; 20]>::empty());
        assert(ledger_of(r.nonces@) =~= Map::<ChainAccount, Nonce>::empty());
        assert(notice_store_of(r.notices@) =~= Map::<(ChainId, NoticeId), Seq<u8>>::empty());
        r
    }

    /// Hash of the only runtime code that may be installed, if any.
    pub fn allowed_next_code_hash(&self) -> (r: Option<[u8; 32]>)
        ensures
            r == self.allowed_hash(),
    {
        self.allowed_next_code_hash
    }

    /// Records the hash of the runtime code that governance allows next.
    pub fn set_allowed_next_code_hash(&mut self, hash: Option<[u8; 32]>)
        requires
            old(self).wf(),
        ensures
            final(self).wf(),
            final(self).allowed_hash() == hash,
            final(self).quorum() == old(self).quorum(),
            final(self).ledger() == old(self).ledger(),
            final(self).notices() == old(self).notices(),
    {
        self.allowed_next_code_hash = hash;
    }

    /// Adds a validator to the set.
    pub fn insert_validator(&mut self, keys: ValidatorKeys)
        requires
            old(self).wf(),
        ensures
            final(self).wf(),
            final(self).allowed_hash() == old(self).allowed_hash(),
            final(self).quorum() == old(self).quorum().insert(keys.eth_address),
            final(self).ledger() == old(self).ledger(),
            final(self).notices() == old(self).notices(),
    {
        let ghost before = *self;
        self.validators.push(keys);
        assert(self.validators@ == before.validators@.push(keys));
        assert forall|a: [u8; 20]| #[trigger] self.quorum().contains(a) == before.quorum().insert(keys.eth_address).contains(a) by {
            if before.quorum().contains(a) {
                let i = choose|i: int| 0 <= i < before.validators@.len() && #[trigger] before.validators@[i].eth_address == a;
                assert(self.validators@[i].eth_address == a);
            }
            if a == keys.eth_address {
                assert(self.validators@[before.validators@.len() as int].eth_address == a);
            }
        }
        assert(self.quorum() =~= before.quorum().insert(keys.eth_address));
    }

    /// Position of `account` in the nonce entries, if it has one.
    fn nonce_index(&self, account: &ChainAccount) -> (r: Option<usize>)
        requires
            self.wf(),
        ensures
            r is None ==> !self.ledger().contains_key(*account),
            r matches Some(i) ==> i < self.nonces@.len() && self.nonces@[i as int].0 == *account,
    {
        let mut i: usize = 0;
        while i < self.nonces.len()
            invariant
                0 <= i <= self.nonces@.len(),
                forall|j: int| 0 <= j < i ==> self.nonces@[j].0 != *account,
            decreases self.nonces@.len() - i,
        {
            if same_account(&self.nonces[i].0, account) {
                return Some(i);
            }
            i = i + 1;
        }
        None
    }

    /// Next nonce the ledger expects from `account`: zero when it has none.
    pub fn nonce_of(&self, account: &ChainAccount) -> (r: Nonce)
        requires
            self.wf(),
        ensures
            r == expected_nonce(self.ledger(), *account),
    {
        match self.nonce_index(account) {
            Some(i) => {
                proof {
                    let es = self.nonces@;
                    assert(es[i as int].0 == *account);
                    let c = choose|c: int| 0 <= c < es.len() && #[trigger] es[c].0 == *account;
                    assert(c == i);
                }
                self.nonces[i].1
            },
            None => 0,
        }
    }

    /// Records `nonce` as the next nonce expected from `account`.
    pub fn set_nonce(&mut self, account: ChainAccount, nonce: Nonce)
        requires
            old(self).wf(),
        ensures
            final(self).wf(),
            final(self).allowed_hash() == old(self).allowed_hash(),
            final(self).quorum() == old(self).quorum(),
            final(self).ledger() == old(self).ledger().insert(account, nonce),
            final(self).notices() == old(self).notices(),
    {
        let ghost old_es = self.nonces@;
        let idx = self.nonce_index(&account);
        let ghost pos: int = match idx {
            Some(i) => i as int,
            None => old_es.len() as int,
        };
        match idx {
            Some(i) => {
                self.nonces.set(i, (account, nonce));
            },
            None => {
                self.nonces.push((account, nonce));
            },
        }
        let ghost es = self.nonces@;
        assert(0 <= pos < es.len() && es[pos] == (account, nonce));
        assert(forall|j: int| 0 <= j < old_es.len() && j != pos ==> es[j] == old_es[j]);
        assert(es.len() == old_es.len() || (es.len() == old_es.len() + 1 && pos == old_es.len()));
        assert(forall|j: int| 0 <= j < old_es.len() && j != pos ==> old_es[j].0 != account);
        assert forall|k: ChainAccount| #[trigger] ledger_of(es).contains_key(k)
            == ledger_of(old_es).insert(account, nonce).contains_key(k) by {
            if ledger_of(old_es).contains_key(k) && k != account {
                let j = choose|j: int| 0 <= j < old_es.len() && #[trigger] old_es[j].0 == k;
                assert(es[j].0 == k);
            }
            if k == account {
                assert(es[pos].0 == k);
            }
            if ledger_of(es).contains_key(k) && k != account {
                let j = choose|j: int| 0 <= j < es.len() && #[trigger] es[j].0 == k;
                assert(old_es[j].0 == k);
            }
        }
        assert(accounts_unique(es));
        assert forall|k: ChainAccount| #[trigger] ledger_of(es).contains_key(k)
            implies ledger_of(es)[k] == ledger_of(old_es).insert(account, nonce)[k] by {
            let c = choose|c: int| 0 <= c < es.len() && #[trigger] es[c].0 == k;
            if k != account {
                assert(old_es[c].0 == k);
                let d = choose|d: int| 0 <= d < old_es.len() && #[trigger] old_es[d].0 == k;
                assert(c == d);
            } else {
                assert(c == pos);
            }
        }
        assert(ledger_of(es) =~= ledger_of(old_es).insert(account, nonce));
    }

    /// Position of the notice stored under `chain_id` and `notice_id`, if any.
    fn notice_index(&self, chain_id: ChainId, notice_id: NoticeId) -> (r: Option<usize>)
        requires
            self.wf(),
        ensures
            r is None ==> !self.notices().contains_key((chain_id, notice_id)),
            r matches Some(i) ==> i < self.notices@.len() && key_of(self.notices@[i as int]) == (chain_id, notice_id),
    {
        let mut i: usize = 0;
        while i < self.notices.len()
            invariant
                0 <= i <= self.notices@.len(),
                forall|j: int| 0 <= j < i ==> key_of(self.notices@[j]) != (chain_id, notice_id),
            decreases self.notices@.len() - i,
        {
            if self.notices[i].0 == chain_id && self.notices[i].1 == notice_id {
                return Some(i);
            }
            i = i + 1;
        }
        None
    }

    /// Canonical encoding of the notice stored under `chain_id` and `notice_id`.
    pub fn notice(&self, chain_id: ChainId, notice_id: NoticeId) -> (r: Option<&Vec<u8>>)
        requires
            self.wf(),
        ensures
            r is Some <==> self.notices().contains_key((chain_id, notice_id)),
            r matches Some(e) ==> e@ == self.notices()[(chain_id, notice_id)],
    {
        match self.notice_index(chain_id, notice_id) {
            Some(i) => {
                proof {
                    let es = self.notices@;
                    let k = (chain_id, notice_id);
                    assert(key_of(es[i as int]) == k);
                    let c = choose|c: int| 0 <= c < es.len() && #[trigger] key_of(es[c]) == k;
                    assert(c == i);
                }
                Some(&self.notices[i].2)
            },
            None => None,
        }
    }

    /// Stores a notice, by its canonical encoding, under `chain_id` and `notice_id`.
    pub fn insert_notice(&mut self, chain_id: ChainId, notice_id: NoticeId, encoding: Vec<u8>)
        requires
            old(self).wf(),
        ensures
            final(self).wf(),
            final(self).allowed_hash() == old(self).allowed_hash(),
            final(self).quorum() == old(self).quorum(),
            final(self).ledger() == old(self).ledger(),
            final(self).notices() == old(self).notices().insert((chain_id, notice_id), encoding@),
    {
        let ghost old_es = self.notices@;
        let ghost key = (chain_id, notice_id);
        let ghost value = encoding@;
        let idx = self.notice_index(chain_id, notice_id);
        let ghost pos: int = match idx {
            Some(i) => i as int,
            None => old_es.len() as int,
        };
        match idx {
            Some(i) => {
                self.notices.set(i, (chain_id, notice_id, encoding));
            },
            None => {
                self.notices.push((chain_id, notice_id, encoding));
            },
        }
        let ghost es = self.notices@;
        assert(0 <= pos < es.len() && key_of(es[pos]) == key && es[pos].2@ == value);
        assert(forall|j: int| 0 <= j < old_es.len() && j != pos ==> es[j] == old_es[j]);
        assert(es.len() == old_es.len() || (es.len() == old_es.len() + 1 && pos == old_es.len()));
        assert(forall|j: int| 0 <= j < old_es.len() && j != pos ==> key_of(old_es[j]) != key);
        assert forall|k: (ChainId, NoticeId)| #[trigger] notice_store_of(es).contains_key(k)
            == notice_store_of(old_es).insert(key, value).contains_key(k) by {
            if notice_store_of(old_es).contains_key(k) && k != key {
                let j = choose|j: int| 0 <= j < old_es.len() && #[trigger] key_of(old_es[j]) == k;
                assert(key_of(es[j]) == k);
            }
            if k == key {
                assert(key_of(es[pos]) == k);
            }
            if notice_store_of(es).contains_key(k) && k != key {
                let j = choose|j: int| 0 <= j < es.len() && #[trigger] key_of(es[j]) == k;
                assert(key_of(old_es[j]) == k);
            }
        }
        assert(notice_keys_unique(es));
        assert forall|k: (ChainId, NoticeId)| #[trigger] notice_store_of(es).contains_key(k)
            implies notice_store_of(es)[k] == notice_store_of(old_es).insert(key, value)[k] by {
            let c = choose|c: int| 0 <= c < es.len() && #[trigger] key_of(es[c]) == k;
            if k != key {
                assert(key_of(old_es[c]) == k);
                let d = choose|d: int| 0 <= d < old_es.len() && #[trigger] key_of(old_es[d]) == k;
                assert(c == d);
            } else {
                assert(c == pos);
            }
        }
        assert(notice_store_of(es) =~= notice_store_of(old_es).insert(key, value));
    }

    /// Tells whether `address` belongs to a current validator.
    pub fn is_quorum_member(&self, address: &[u8; 20]) -> (r: bool)
        ensures
            r == self.quorum().contains(*address),
    {
        let mut i: usize = 0;
        while i < self.validators.len()
            invariant
                0 <= i <= self.validators@.len(),
                forall|j: int| 0 <= j < i ==> self.validators@[j].eth_address != *address,
            decreases self.validators@.len() - i,
        {
            if bytes_eq(&self.validators[i].eth_address, address) {
                assert(self.validators@[i as int].eth_address == *address);
                return true;
            }
            i = i + 1;
        }
        false
    }
}

} // verus!
