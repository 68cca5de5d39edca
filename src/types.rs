//! The values admission control reads and the verdicts it hands back.
use vstd::prelude::*;

verus! {

/// Priority given to every admitted bridge call.
pub const UNSIGNED_TXS_PRIORITY: u64 = 100;

/// Number of blocks for which an admitted bridge call stays valid.
pub const UNSIGNED_TXS_LONGEVITY: u64 = 32;

/// Longevity of a call admitted without an explicit validity window.
pub const UNBOUNDED_LONGEVITY: u64 = u64::MAX;

/// Per-account sequence number of signed requests.
pub type Nonce = u32;

/// Where a candidate call came from.
#[derive(Clone, Copy, Debug, PartialEq, Eq, Structural)]
pub enum TransactionSource {
    /// Put into a block by the local node while authoring it.
    InBlock,
    /// Submitted through the local node's own interfaces.
    Local,
    /// Received from another node of the network.
    External,
}

/// An account on one of the chains the bridge connects.
#[derive(Clone, Copy, Debug, PartialEq, Eq)]
pub enum ChainAccount {
    Gate([u8; 32]),
    Eth([u8; 20]),
}

/// A signature made on one of the connected chains.
#[derive(Clone, Copy, Debug, PartialEq, Eq)]
pub enum ChainSignature {
    Gate([u8; 64]),
    Eth([u8; 65]),
}

/// A signature together with the account that claims to have made it.
#[derive(Clone, Copy, Debug, PartialEq, Eq)]
pub enum ChainAccountSignature {
    Gate([u8; 32], [u8; 64]),
    Eth([u8; 20], [u8; 65]),
}

/// A connected chain.
#[derive(Clone, Copy, Debug, PartialEq, Eq, Structural)]
pub enum ChainId {
    Gate,
    Eth,
}

/// Identifies a notice: era and index within the era.
#[derive(Clone, Copy, Debug, PartialEq, Eq, Structural)]
pub struct NoticeId(pub u64, pub u64);

/// Identifies an event seen on a connected chain: block number and log index.
#[derive(Clone, Copy, Debug, PartialEq, Eq, Structural)]
pub enum ChainLogId {
    Eth(u64, u64),
}

/// Why a request was found malformed by the request checker.
#[derive(Clone, Copy, Debug, PartialEq, Eq, Structural)]
pub enum TrxReqParseError {
    NotImplemented,
    LexError,
    InvalidAmount,
    InvalidAddress,
    InvalidArgs,
    UnknownFunction,
    InvalidExpression,
    InvalidChain,
    InvalidChainAccount,
}

/// A cause reported by a collaborator of admission control.
#[derive(Clone, Copy, Debug, PartialEq, Eq, Structural)]
pub enum Reason {
    InvalidUTF8,
    TrxRequestParseError(TrxReqParseError),
    SignatureAccountMismatch,
    /// The claimed nonce, then the nonce the ledger expects.
    IncorrectNonce(Nonce, Nonce),
}

/// Signer recovery failed: malformed or non-canonical signature.
#[derive(Clone, Copy, Debug, PartialEq, Eq, Structural)]
pub struct RecoveryFailed;

/// A call proposed for admission without a signed extrinsic.
#[derive(Clone, Debug, PartialEq, Eq)]
pub enum Call {
    /// Names the miner of the block being authored.
    SetMiner(ChainAccount),
    /// Installs the runtime code whose hash governance has allowed.
    SetNextCodeViaHash(Vec<u8>),
    /// Reports an event of a connected chain: its id, its canonical
    /// encoding, and a validator's signature over that encoding.
    ReceiveEvent(ChainLogId, Vec<u8>, [u8; 65]),
    /// Executes a user request: its text, the user's signature, the nonce.
    ExecTrxRequest(Vec<u8>, ChainAccountSignature, Nonce),
    /// Adds a validator's signature to a pending notice.
    PublishSignature(ChainId, NoticeId, ChainSignature),
    /// Removes stale notices.
    CullNotices,
    /// Every call that is only accepted as a signed extrinsic.
    Other,
}

/// An opaque tag used by the pool to deduplicate and order transactions.
#[derive(Clone, Copy, Debug, PartialEq, Eq)]
pub enum Tag {
    NextCodeHash([u8; 32]),
    Event(ChainLogId, [u8; 65]),
    Request(ChainAccount, Nonce),
    NoticeSignature(ChainSignature),
    CullNotices,
}

/// Pool metadata of an admitted call.
#[derive(Clone, Debug, PartialEq, Eq)]
pub struct ValidTransaction {
    pub priority: u64,
    /// Tags that must be provided by earlier transactions.
    pub requires: Vec<Tag>,
    /// Tags this transaction provides.
    pub provides: Vec<Tag>,
    /// Number of blocks the admission stays valid.
    pub longevity: u64,
    /// Whether the transaction is gossiped to other nodes.
    pub propagate: bool,
}

/// Mathematical form of [`ValidTransaction`].
pub struct Admission {
    pub priority: u64,
    pub requires: Seq<Tag>,
    pub provides: Seq<Tag>,
    pub longevity: u64,
    pub propagate: bool,
}

impl View for ValidTransaction {
    type V = Admission;

    open spec fn view(&self) -> Admission {
        Admission {
            priority: self.priority,
            requires: self.requires@,
            provides: self.provides@,
            longevity: self.longevity,
            propagate: self.propagate,
        }
    }
}

/// Why a call was refused.
#[derive(Clone, Copy, Debug, PartialEq, Eq, Structural)]
pub enum ValidationError {
    /// The call is only accepted from the local block author.
    InvalidInternalOnly,
    /// The code's hash is not the one governance allowed.
    InvalidNextCode,
    /// The signer is not in the current validator set.
    InvalidValidator,
    /// No signer could be recovered from the signature.
    InvalidSignature,
    /// The call is never accepted unsigned.
    InvalidCall,
    InvalidPriceSignature,
    InvalidPrice(Reason),
    /// No notice is stored under the given chain and id.
    UnknownNotice,
    /// The request checker refused the request for the given cause.
    InvalidTrxRequest(Reason),
}

/// The verdict on a call, in mathematical form.
pub open spec fn verdict(r: Result<ValidTransaction, ValidationError>) -> Result<Admission, ValidationError> {
    match r {
        Ok(v) => Ok(v@),
        Err(e) => Err(e),
    }
}

} // verus!
