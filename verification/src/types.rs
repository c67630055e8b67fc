//! Plain data that the engine reads, builds and hands to its host.

use vstd::prelude::*;

use crate::amount::Amount;

verus! {

/// Identifier of an account of the rollup.
#[derive(Clone, Copy, Debug, PartialEq, Eq)]
pub struct AccountId(pub u32);

/// Identifier of a token of the rollup.
#[derive(Clone, Copy, Debug, PartialEq, Eq)]
pub struct TokenId(pub u32);

/// Counter of the transactions that an account has sent.
#[derive(Clone, Copy, Debug, PartialEq, Eq)]
pub struct Nonce(pub u32);

/// Address of an account on the base chain.
#[derive(Clone, Copy, Debug, PartialEq, Eq)]
pub struct Address(pub [u8; 20]);

/// Hash that identifies a submitted transaction.
#[derive(Clone, Copy, Debug, PartialEq, Eq)]
pub struct TxHash(pub [u8; 32]);

/// Identifier of a stored forced exit request.
pub type ForcedExitRequestId = i64;

/// An instant in UTC: whole seconds since the Unix epoch and the nanoseconds
/// into that second. Instants are ordered by the seconds, then by the
/// nanoseconds.
#[derive(Clone, Copy, Debug, PartialEq, Eq)]
pub struct Timestamp {
    pub secs: i64,
    pub nanos: u32,
}

impl Timestamp {
    /// Whether `self` lies strictly before `other`.
    pub open spec fn is_before(self, other: Timestamp) -> bool {
        self.secs < other.secs || (self.secs == other.secs && self.nanos < other.nanos)
    }

    /// Whether `self` lies strictly before `other`.
    pub fn before(&self, other: &Timestamp) -> (earlier: bool)
        ensures
            earlier == self.is_before(*other),
    {
        self.secs < other.secs || (self.secs == other.secs && self.nanos < other.nanos)
    }
}

/// Window of time, in seconds since the Unix epoch, in which a transaction
/// may be executed.
#[derive(Clone, Copy, Debug, PartialEq, Eq)]
pub struct TimeRange {
    pub valid_from: u64,
    pub valid_until: u64,
}

impl TimeRange {
    /// The window without bounds.
    pub open spec fn unbounded() -> TimeRange {
        TimeRange { valid_from: 0, valid_until: u64::MAX }
    }
}

impl Default for TimeRange {
    fn default() -> (range: TimeRange)
        ensures
            range == TimeRange::unbounded(),
    {
        TimeRange { valid_from: 0, valid_until: u64::MAX }
    }
}

/// What an exit transaction says, before it is signed: `initiator_account_id`
/// asks that the whole balance of `token` held by `target` leave the rollup.
#[derive(Clone, Copy, Debug, PartialEq, Eq)]
pub struct ForcedExit {
    pub initiator_account_id: AccountId,
    pub target: Address,
    pub token: TokenId,
    pub fee: u128,
    pub nonce: Nonce,
    pub time_range: TimeRange,
}

/// What a receipt lookup tells of an executed transaction.
#[derive(Clone, Copy, Debug, PartialEq, Eq)]
pub struct TxReceiptResponse {
    pub success: bool,
}

/// The sender account as the rollup last committed it.
#[derive(Clone, Copy, Debug, PartialEq, Eq)]
pub struct SenderAccountState {
    pub nonce: Nonce,
}

/// Why an outside step that the host was asked for did not succeed.
#[derive(Clone, Copy, Debug, PartialEq, Eq)]
pub enum HostError {
    /// The storage could not be reached or refused the operation.
    Storage,
    /// The batch did not reach the network client.
    Transport,
    /// The network client received the batch and rejected it.
    Rejected,
}

/// Why the engine gave up on a piece of work.
#[derive(Clone, Copy, Debug, PartialEq, Eq)]
pub enum Failure {
    /// The host reported that an outside step failed.
    Host(HostError),
    /// The chain executed the transaction and it failed.
    TransactionFailed,
    /// No receipt appeared within the time allowed.
    ConfirmationTimeout,
    /// The rollup has no committed state for the sender account.
    SenderStateMissing,
    /// The sender's nonce leaves no room for one transaction per token.
    NonceOverflow,
    /// The request names no token, so there is nothing to submit.
    EmptyBatch,
    /// The host answered with an event that the engine was not waiting for.
    UnexpectedEvent,
}

impl Failure {
    /// Whether trying again cannot help: the deployment needs attention.
    pub open spec fn is_fatal(self) -> bool {
        match self {
            Failure::Host(_) => false,
            Failure::TransactionFailed => false,
            Failure::ConfirmationTimeout => true,
            Failure::SenderStateMissing => true,
            Failure::NonceOverflow => true,
            Failure::EmptyBatch => true,
            Failure::UnexpectedEvent => true,
        }
    }

    /// Whether trying again cannot help: the deployment needs attention.
    pub fn fatal(&self) -> (fatal: bool)
        ensures
            fatal == self.is_fatal(),
    {
        match self {
            Failure::Host(_) => false,
            Failure::TransactionFailed => false,
            Failure::ConfirmationTimeout => true,
            Failure::SenderStateMissing => true,
            Failure::NonceOverflow => true,
            Failure::EmptyBatch => true,
            Failure::UnexpectedEvent => true,
        }
    }
}

/// One user's stored wish to leave the rollup.
///
/// `fulfilled_by` holds the hashes of a submission that has been made and not
/// rolled back; `fulfilled_at` is set once the chain has confirmed it.
#[derive(Debug, PartialEq, Eq)]
pub struct ForcedExitRequest {
    pub id: ForcedExitRequestId,
    pub target: Address,
    pub tokens: Vec<TokenId>,
    pub price_in_wei: Amount,
    pub valid_until: Timestamp,
    pub fulfilled_by: Option<Vec<TxHash>>,
    pub fulfilled_at: Option<Timestamp>,
}

/// The mathematical content of a [`ForcedExitRequest`].
pub struct ForcedExitRequestView {
    pub id: ForcedExitRequestId,
    pub target: Address,
    pub tokens: Seq<TokenId>,
    pub price_in_wei: nat,
    pub valid_until: Timestamp,
    pub fulfilled_by: Option<Seq<TxHash>>,
    pub fulfilled_at: Option<Timestamp>,
}

impl View for ForcedExitRequest {
    type V = ForcedExitRequestView;

    open spec fn view(&self) -> ForcedExitRequestView {
        ForcedExitRequestView {
            id: self.id,
            target: self.target,
            tokens: self.tokens@,
            price_in_wei: self.price_in_wei@,
            valid_until: self.valid_until,
            fulfilled_by: match self.fulfilled_by {
                Some(hashes) => Some(hashes@),
                None => None,
            },
            fulfilled_at: self.fulfilled_at,
        }
    }
}

impl ForcedExitRequestView {
    /// A submission is on record and the chain has not confirmed it yet.
    pub open spec fn is_unconfirmed(self) -> bool {
        self.fulfilled_by is Some && self.fulfilled_at is None
    }
}

impl Clone for ForcedExitRequest {
    fn clone(&self) -> (copy: ForcedExitRequest)
        ensures
            copy@ == self@,
    {
        let fulfilled_by = match &self.fulfilled_by {
            Some(hashes) => Some(hashes.clone()),
            None => None,
        };
        ForcedExitRequest {
            id: self.id,
            target: self.target,
            tokens: self.tokens.clone(),
            price_in_wei: self.price_in_wei.clone(),
            valid_until: self.valid_until,
            fulfilled_by,
            fulfilled_at: self.fulfilled_at,
        }
    }
}

} // verus!
