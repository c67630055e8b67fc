//! What holds of the engine whatever the host reports: how the stored
//! requests fare under the work that the engine asks for.

use vstd::prelude::*;

use crate::confirmation::{Confirmation, WaitPhase, CONFIRMATION_TIMEOUT_MILLIS};
use crate::processing::{
    confirmation_next, one_more, submission_next, validation_next, Attempt, Processing,
};
use crate::protocol::{persisted_after, persisted_after_step, ActionView, Event, StepView};
use crate::reconciliation::{
    Reconciliation,
    check_next, reconciliation_next, turn_to_request, RequestCheck,
};
use crate::sender::ForcedExitSender;
use crate::types::{
    Failure, ForcedExitRequest, ForcedExitRequestId, ForcedExitRequestView, HostError, Timestamp,
    TxHash, TxReceiptResponse,
};

verus! {

/// Once the network has accepted a batch, the hashes that the host reported
/// are stored as the submission of the request, and nothing else of the
/// request changes.
pub proof fn law_sent_batch_is_recorded(
    id: ForcedExitRequestId,
    batch_len: usize,
    hashes: Vec<TxHash>,
    record: ForcedExitRequestView,
    now: Timestamp,
)
    requires
        record.id == id,
        hashes@.len() == batch_len,
        batch_len > 0,
    ensures
        submission_next(id, batch_len, Event::BatchSent(hashes)).1 == StepView::Perform(
            ActionView::SetFulfilledBy { id, value: Some(hashes@) },
        ),
        persisted_after_step(
            record,
            submission_next(id, batch_len, Event::BatchSent(hashes)).1,
            now,
        ) == (ForcedExitRequestView { fulfilled_by: Some(hashes@), ..record }),
{
}

/// A batch that could not be sent leaves every stored request as it was: the
/// attempt ends with the failure and asks for no write.
pub proof fn law_unsent_batch_records_nothing(
    id: ForcedExitRequestId,
    batch_len: usize,
    error: HostError,
    record: ForcedExitRequestView,
    now: Timestamp,
)
    ensures
        submission_next(id, batch_len, Event::Failed(error)) == (
            Attempt::Done,
            StepView::Finished(Err(Failure::Host(error))),
        ),
        persisted_after_step(record, submission_next(id, batch_len, Event::Failed(error)).1, now)
            == record,
{
}

/// Whatever the host reports of a batch, the submission of a stored request
/// changes only by taking the hashes of a batch that was sent.
pub proof fn law_submission_changes_only_by_recording(
    id: ForcedExitRequestId,
    batch_len: usize,
    event: Event,
    record: ForcedExitRequestView,
    now: Timestamp,
)
    ensures
        ({
            let after = persisted_after_step(record, submission_next(id, batch_len, event).1, now);
            after == record || (event matches Event::BatchSent(hashes) && after == (
                ForcedExitRequestView { fulfilled_by: Some(hashes@), ..record }
            ))
        }),
{
}

/// Once the chain has confirmed the transaction that an attempt follows, the
/// request is marked as fulfilled at the instant of the write.
pub proof fn law_confirmed_submission_is_marked(
    id: ForcedExitRequestId,
    wait: Confirmation,
    record: ForcedExitRequestView,
    now: Timestamp,
)
    requires
        record.id == id,
        wait.phase == WaitPhase::Looking,
    ensures
        ({
            let confirmed = Event::Receipt(Some(TxReceiptResponse { success: true }));
            let next = confirmation_next(id, wait, confirmed);
            &&& next.0 == Attempt::AwaitingMark { id }
            &&& next.1 == StepView::Perform(ActionView::SetFulfilledAt { id })
            &&& persisted_after_step(record, next.1, now).fulfilled_at == Some(now)
        }),
{
}

/// Once the chain has confirmed the last transaction of a recorded
/// submission, a reconciliation marks the request as fulfilled; after an
/// earlier transaction it turns to the next one and writes nothing.
pub proof fn law_confirmed_request_is_marked(
    request: ForcedExitRequestView,
    index: usize,
    wait: Confirmation,
    now: Timestamp,
)
    requires
        request.fulfilled_by is Some,
        index < request.fulfilled_by.unwrap().len(),
        wait.phase == WaitPhase::Looking,
    ensures
        ({
            let confirmed = Event::Receipt(Some(TxReceiptResponse { success: true }));
            let state = RequestCheck::Confirming { index, wait };
            let next = check_next(request, state, confirmed);
            if index + 1 == request.fulfilled_by.unwrap().len() {
                &&& next.0 == RequestCheck::Marking
                &&& next.1 == StepView::Perform(ActionView::SetFulfilledAt { id: request.id })
                &&& persisted_after_step(request, next.1, now).fulfilled_at == Some(now)
            } else {
                &&& next.1 == StepView::Perform(
                    ActionView::GetReceipt { tx_hash: request.fulfilled_by.unwrap()[index + 1] },
                )
                &&& persisted_after_step(request, next.1, now) == request
            }
        }),
{
}

/// No work that the engine can ask for clears the mark of a fulfilled
/// request.
pub proof fn law_mark_is_never_cleared(
    record: ForcedExitRequestView,
    action: ActionView,
    now: Timestamp,
)
    requires
        record.fulfilled_at is Some,
    ensures
        persisted_after(record, action, now).fulfilled_at is Some,
{
}

/// A request that is marked as fulfilled is never submitted again: an
/// attempt that finds it ends at once, whatever was paid and whenever.
pub proof fn law_fulfilled_request_is_left_alone(
    sender: ForcedExitSender,
    true_amount: nat,
    submission_time: Timestamp,
    request: ForcedExitRequest,
)
    requires
        request@.fulfilled_at is Some,
    ensures
        validation_next(sender, true_amount, submission_time, Some(request)) == (
            Attempt::Done,
            StepView::Finished(Ok(())),
        ),
{
}

/// A reconciliation that comes to a request with a single recorded
/// transaction looks its receipt up; if the receipt reports failure, the
/// submission is struck from the record and the request stays unmarked.
pub proof fn law_failed_submission_is_rolled_back(
    requests: Vec<ForcedExitRequest>,
    index: usize,
    tx_hash: TxHash,
    now: Timestamp,
)
    requires
        index < requests@.len(),
        requests@[index as int]@.fulfilled_by == Some(seq![tx_hash]),
        requests@[index as int]@.fulfilled_at is None,
    ensures
        ({
            let request = requests@[index as int]@;
            let failed = Event::Receipt(Some(TxReceiptResponse { success: false }));
            let asked = turn_to_request(requests, index as int);
            let next = reconciliation_next(asked.0, failed);
            let after = persisted_after_step(request, next.1, now);
            &&& asked.1 == StepView::Perform(ActionView::GetReceipt { tx_hash })
            &&& next.1 == StepView::Perform(
                ActionView::SetFulfilledBy { id: request.id, value: None },
            )
            &&& after.fulfilled_by is None
            &&& after.fulfilled_at is None
        }),
{
    let request = requests@[index as int]@;
    assert(request.is_unconfirmed());
    assert(seq![tx_hash].len() == 1);
    assert(seq![tx_hash][0] == tx_hash);
}

/// A reconciliation strikes the submission of a request from the record
/// whenever the settling of that request fails, and for no other reason.
pub proof fn law_rollback_follows_failure(
    requests: Vec<ForcedExitRequest>,
    index: usize,
    check: RequestCheck,
    event: Event,
)
    requires
        index < requests@.len(),
    ensures
        ({
            let state = Reconciliation::Checking { requests, index, check };
            let settled = check_next(requests@[index as int]@, check, event).1;
            settled matches StepView::Finished(Err(_)) <==> reconciliation_next(state, event).1
                == StepView::Perform(
                ActionView::SetFulfilledBy { id: requests@[index as int].id, value: None },
            )
        }),
{
    let settled = check_next(requests@[index as int]@, check, event);
    if settled.1 matches StepView::Finished(Ok(_)) {
        lemma_turning_never_rolls_back(requests, index + 1);
    }
}

/// Turning to the next request never strikes a submission: it asks for a
/// receipt, for a mark, or ends the reconciliation.
proof fn lemma_turning_never_rolls_back(requests: Vec<ForcedExitRequest>, index: int)
    ensures
        !(turn_to_request(requests, index).1 matches StepView::Perform(
            ActionView::SetFulfilledBy { .. },
        )),
    decreases requests@.len() - index,
{
    if 0 <= index < requests@.len() {
        let first = check_next(requests@[index]@, RequestCheck::Ready, Event::Started);
        if first.1 matches StepView::Finished(Ok(_)) {
            lemma_turning_never_rolls_back(requests, index + 1);
        }
    }
}

/// A receipt is looked up only while the time spent waiting is below the
/// timeout, and the time spent waiting never goes down.
pub proof fn law_wait_is_bounded(wait: Confirmation, event: Event)
    ensures
        wait.next(event).1 matches StepView::Perform(ActionView::GetReceipt { .. })
            ==> wait.next(event).0.time_passed < CONFIRMATION_TIMEOUT_MILLIS,
        wait.next(event).0.time_passed >= wait.time_passed,
        wait.next(event).0.tx_hash == wait.tx_hash,
{
}

/// The answer to a payment ends only well, or with a failure that no
/// repetition can mend: every other failure leads to a further attempt.
pub proof fn law_processing_gives_up_only_on_fatal_failure(
    sender: ForcedExitSender,
    amount: nat,
    submission_time: Timestamp,
    state: Processing,
    event: Event,
)
    ensures
        sender.processing_next(amount, submission_time, state, event).1 matches StepView::Finished(
            Err(failure),
        ) ==> failure.is_fatal(),
{
}

/// The count of failed attempts never goes down and never wraps: a step
/// leaves it as it is or raises it by one, and at the largest number it
/// stays.
pub proof fn law_attempts_saturate(
    sender: ForcedExitSender,
    amount: nat,
    submission_time: Timestamp,
    state: Processing,
    event: Event,
)
    ensures
        ({
            let next = sender.processing_next(amount, submission_time, state, event).0;
            &&& next.attempts == state.attempts || next.attempts == one_more(state.attempts)
            &&& next.attempts >= state.attempts
        }),
{
}

} // verus!
