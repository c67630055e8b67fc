//! How the engine and its host talk: the engine asks for one piece of
//! outside work at a time, the host performs it and reports what came of it.

use vstd::prelude::*;

use crate::types::{
    AccountId, Failure, ForcedExit, ForcedExitRequest, ForcedExitRequestId, ForcedExitRequestView,
    HostError, SenderAccountState, Timestamp, TxHash, TxReceiptResponse,
};

verus! {

/// A piece of outside work that the engine asks its host to perform.
#[derive(Debug, PartialEq, Eq)]
pub enum Action {
    /// Read the request stored under `id`; answered by [`Event::Request`].
    GetRequestById { id: ForcedExitRequestId },
    /// Read the last committed state of the account; answered by
    /// [`Event::SenderState`].
    GetSenderState { account_id: AccountId },
    /// Sign the transactions and send them to the network as one unit;
    /// answered by [`Event::BatchSent`] with one hash per transaction, in
    /// their order.
    SendBatch { txs: Vec<ForcedExit> },
    /// Store `value` as the submission of the request; answered by
    /// [`Event::Completed`].
    SetFulfilledBy { id: ForcedExitRequestId, value: Option<Vec<TxHash>> },
    /// Look up the receipt of the transaction; answered by
    /// [`Event::Receipt`].
    GetReceipt { tx_hash: TxHash },
    /// Let the given time pass; answered by [`Event::Completed`].
    Sleep { millis: u64 },
    /// Store the present instant as the time at which the request was
    /// fulfilled; answered by [`Event::Completed`].
    SetFulfilledAt { id: ForcedExitRequestId },
    /// Read the requests that have been submitted and not confirmed;
    /// answered by [`Event::UnconfirmedRequests`].
    GetUnconfirmedRequests,
    /// Tell the operator that processing has failed `attempts` times in a
    /// row; answered by [`Event::Completed`].
    ReportFailure { attempts: u8 },
}

/// The mathematical content of an [`Action`].
pub enum ActionView {
    GetRequestById { id: ForcedExitRequestId },
    GetSenderState { account_id: AccountId },
    SendBatch { txs: Seq<ForcedExit> },
    SetFulfilledBy { id: ForcedExitRequestId, value: Option<Seq<TxHash>> },
    GetReceipt { tx_hash: TxHash },
    Sleep { millis: u64 },
    SetFulfilledAt { id: ForcedExitRequestId },
    GetUnconfirmedRequests,
    ReportFailure { attempts: u8 },
}

impl View for Action {
    type V = ActionView;

    open spec fn view(&self) -> ActionView {
        match *self {
            Action::GetRequestById { id } => ActionView::GetRequestById { id },
            Action::GetSenderState { account_id } => ActionView::GetSenderState { account_id },
            Action::SendBatch { txs } => ActionView::SendBatch { txs: txs@ },
            Action::SetFulfilledBy { id, value } => ActionView::SetFulfilledBy {
                id,
                value: match value {
                    Some(hashes) => Some(hashes@),
                    None => None,
                },
            },
            Action::GetReceipt { tx_hash } => ActionView::GetReceipt { tx_hash },
            Action::Sleep { millis } => ActionView::Sleep { millis },
            Action::SetFulfilledAt { id } => ActionView::SetFulfilledAt { id },
            Action::GetUnconfirmedRequests => ActionView::GetUnconfirmedRequests,
            Action::ReportFailure { attempts } => ActionView::ReportFailure { attempts },
        }
    }
}

/// What the host reports to the engine.
#[derive(Debug, PartialEq, Eq)]
pub enum Event {
    /// The work begins: the first event of every run.
    Started,
    /// The request stored under the identifier asked for, if there is one.
    Request(Option<ForcedExitRequest>),
    /// The last committed state of the sender account, if there is one.
    SenderState(Option<SenderAccountState>),
    /// The network accepted the batch; these are the hashes of its
    /// transactions, in their order.
    BatchSent(Vec<TxHash>),
    /// The receipt of the transaction asked for, if the chain has one.
    Receipt(Option<TxReceiptResponse>),
    /// The write, the sleep or the report asked for is done.
    Completed,
    /// The requests that have been submitted and not confirmed.
    UnconfirmedRequests(Vec<ForcedExitRequest>),
    /// The work asked for failed.
    Failed(HostError),
}

/// What the engine answers to an event: more outside work, or the end of the
/// run with its result.
#[derive(Debug, PartialEq, Eq)]
pub enum Step {
    Perform(Action),
    Finished(Result<(), Failure>),
}

/// The mathematical content of a [`Step`].
pub enum StepView {
    Perform(ActionView),
    Finished(Result<(), Failure>),
}

impl View for Step {
    type V = StepView;

    open spec fn view(&self) -> StepView {
        match *self {
            Step::Perform(action) => StepView::Perform(action@),
            Step::Finished(result) => StepView::Finished(result),
        }
    }
}

/// The stored request `record` once the host has performed `action` at the
/// instant `now`. Only the two writes change a request, and only the one
/// that they name.
pub open spec fn persisted_after(
    record: ForcedExitRequestView,
    action: ActionView,
    now: Timestamp,
) -> ForcedExitRequestView {
    match action {
        ActionView::SetFulfilledBy { id, value } => if id == record.id {
            ForcedExitRequestView { fulfilled_by: value, ..record }
        } else {
            record
        },
        ActionView::SetFulfilledAt { id } => if id == record.id {
            ForcedExitRequestView { fulfilled_at: Some(now), ..record }
        } else {
            record
        },
        _ => record,
    }
}

/// The stored request `record` once the host has followed `step` at the
/// instant `now`: a run that ends writes nothing.
pub open spec fn persisted_after_step(
    record: ForcedExitRequestView,
    step: StepView,
    now: Timestamp,
) -> ForcedExitRequestView {
    match step {
        StepView::Perform(action) => persisted_after(record, action, now),
        StepView::Finished(_) => record,
    }
}

} // verus!
