//! Settling what an earlier run left open: requests whose submission is on
//! record while its confirmation was never seen.

use vstd::prelude::*;

use crate::confirmation::{Confirmation, WaitPhase};
use crate::protocol::{Action, ActionView, Event, Step, StepView};
use crate::sender::ForcedExitSender;
use crate::types::{Failure, ForcedExitRequest, ForcedExitRequestView, TxHash};

verus! {

/// Where the settling of one request stands.
#[derive(Clone, Copy, Debug, PartialEq, Eq)]
pub enum RequestCheck {
    /// Nothing has been asked yet.
    Ready,
    /// The transaction number `index` of the submission is being followed.
    Confirming { index: usize, wait: Confirmation },
    /// Every transaction is confirmed; the request is being marked.
    Marking,
    /// The request is settled, or its settling has failed.
    Done,
}

/// The end of the settling of one request with `result`.
pub open spec fn check_over(result: Result<(), Failure>) -> (RequestCheck, StepView) {
    (RequestCheck::Done, StepView::Finished(result))
}

/// Turns to the transaction number `index` of a submission: its receipt is
/// looked up. Past the last transaction, the request is to be marked as
/// fulfilled.
pub open spec fn turn_to_hash(
    request: ForcedExitRequestView,
    hashes: Seq<TxHash>,
    index: int,
) -> (RequestCheck, StepView) {
    if 0 <= index < hashes.len() {
        (
            RequestCheck::Confirming {
                index: index as usize,
                wait: Confirmation {
                    tx_hash: hashes[index],
                    time_passed: 0,
                    phase: WaitPhase::Looking,
                },
            },
            StepView::Perform(ActionView::GetReceipt { tx_hash: hashes[index] }),
        )
    } else {
        (RequestCheck::Marking, StepView::Perform(ActionView::SetFulfilledAt { id: request.id }))
    }
}

/// What the settling of `request` does on `event`.
///
/// Each transaction of the submission is followed in turn. Once the chain
/// has confirmed them all, the request is to be marked as fulfilled. The
/// first transaction that fails, or that cannot be followed, ends the
/// settling with that failure. A request that is not unconfirmed is left
/// alone.
pub open spec fn check_next(request: ForcedExitRequestView, state: RequestCheck, event: Event) -> (
    RequestCheck,
    StepView,
) {
    match state {
        RequestCheck::Ready => match event {
            Event::Started => if request.is_unconfirmed() {
                turn_to_hash(request, request.fulfilled_by.unwrap(), 0)
            } else {
                check_over(Ok(()))
            },
            _ => check_over(Err(Failure::UnexpectedEvent)),
        },
        RequestCheck::Confirming { index, wait } => if request.fulfilled_by is Some && index
            < request.fulfilled_by.unwrap().len() {
            match wait.next(event) {
                (wait, StepView::Perform(action)) => (
                    RequestCheck::Confirming { index, wait },
                    StepView::Perform(action),
                ),
                (_, StepView::Finished(Ok(_))) => turn_to_hash(
                    request,
                    request.fulfilled_by.unwrap(),
                    index + 1,
                ),
                (_, StepView::Finished(Err(failure))) => check_over(Err(failure)),
            }
        } else {
            check_over(Err(Failure::UnexpectedEvent))
        },
        RequestCheck::Marking => match event {
            Event::Completed => check_over(Ok(())),
            Event::Failed(error) => check_over(Err(Failure::Host(error))),
            _ => check_over(Err(Failure::UnexpectedEvent)),
        },
        RequestCheck::Done => check_over(Err(Failure::UnexpectedEvent)),
    }
}

/// Where a reconciliation stands.
#[derive(Debug, PartialEq, Eq)]
pub enum Reconciliation {
    /// Nothing has been asked yet.
    Ready,
    /// The unconfirmed requests are being read.
    Loading,
    /// The request number `index` is being settled.
    Checking { requests: Vec<ForcedExitRequest>, index: usize, check: RequestCheck },
    /// The submission of the request number `index` is being struck from the
    /// record.
    RollingBack { requests: Vec<ForcedExitRequest>, index: usize },
    /// The reconciliation is over.
    Done,
}

/// The end of a reconciliation with `result`.
pub open spec fn reconciliation_over(result: Result<(), Failure>) -> (Reconciliation, StepView) {
    (Reconciliation::Done, StepView::Finished(result))
}

/// Strikes the submission of the request number `index` from the record, so
/// that a later payment can have it submitted afresh.
pub open spec fn roll_back(requests: Vec<ForcedExitRequest>, index: int) -> (
    Reconciliation,
    StepView,
) {
    (
        Reconciliation::RollingBack { requests, index: index as usize },
        StepView::Perform(ActionView::SetFulfilledBy { id: requests@[index].id, value: None }),
    )
}

/// Turns to the request number `index`, and on from it past every request
/// that needs no outside work. Past the last request the reconciliation ends.
pub open spec fn turn_to_request(requests: Vec<ForcedExitRequest>, index: int) -> (
    Reconciliation,
    StepView,
)
    decreases requests@.len() - index,
{
    if 0 <= index < requests@.len() {
        match check_next(requests@[index]@, RequestCheck::Ready, Event::Started) {
            (check, StepView::Perform(action)) => (
                Reconciliation::Checking { requests, index: index as usize, check },
                StepView::Perform(action),
            ),
            (_, StepView::Finished(Ok(_))) => turn_to_request(requests, index + 1),
            (_, StepView::Finished(Err(_))) => roll_back(requests, index),
        }
    } else {
        reconciliation_over(Ok(()))
    }
}

/// What a reconciliation does on `event`.
///
/// It reads the unconfirmed requests and settles them one by one. A request
/// whose settling fails has its submission struck from the record, and the
/// reconciliation goes on with the next. Only a failure of the storage to
/// read the requests, or to strike a submission, ends it early.
pub open spec fn reconciliation_next(state: Reconciliation, event: Event) -> (
    Reconciliation,
    StepView,
) {
    match state {
        Reconciliation::Ready => match event {
            Event::Started => (
                Reconciliation::Loading,
                StepView::Perform(ActionView::GetUnconfirmedRequests),
            ),
            _ => reconciliation_over(Err(Failure::UnexpectedEvent)),
        },
        Reconciliation::Loading => match event {
            Event::UnconfirmedRequests(requests) => turn_to_request(requests, 0),
            Event::Failed(error) => reconciliation_over(Err(Failure::Host(error))),
            _ => reconciliation_over(Err(Failure::UnexpectedEvent)),
        },
        Reconciliation::Checking { requests, index, check } => if index < requests@.len() {
            match check_next(requests@[index as int]@, check, event) {
                (check, StepView::Perform(action)) => (
                    Reconciliation::Checking { requests, index, check },
                    StepView::Perform(action),
                ),
                (_, StepView::Finished(Ok(_))) => turn_to_request(requests, index + 1),
                (_, StepView::Finished(Err(_))) => roll_back(requests, index as int),
            }
        } else {
            reconciliation_over(Err(Failure::UnexpectedEvent))
        },
        Reconciliation::RollingBack { requests, index } => match event {
            Event::Completed => turn_to_request(requests, index + 1),
            Event::Failed(error) => reconciliation_over(Err(Failure::Host(error))),
            _ => reconciliation_over(Err(Failure::UnexpectedEvent)),
        },
        Reconciliation::Done => reconciliation_over(Err(Failure::UnexpectedEvent)),
    }
}

fn settled(result: Result<(), Failure>) -> (next: (RequestCheck, Step))
    ensures
        (next.0, next.1@) == check_over(result),
{
    (RequestCheck::Done, Step::Finished(result))
}

fn reconciled(result: Result<(), Failure>) -> (next: (Reconciliation, Step))
    ensures
        (next.0, next.1@) == reconciliation_over(result),
{
    (Reconciliation::Done, Step::Finished(result))
}

impl ForcedExitSender {
    fn turn_to_hash(&self, request: &ForcedExitRequest, hashes: &Vec<TxHash>, index: usize) -> (next:
        (RequestCheck, Step))
        requires
            index <= hashes@.len(),
        ensures
            (next.0, next.1@) == turn_to_hash(request@, hashes@, index as int),
    {
        if index < hashes.len() {
            let (wait, step) = self.wait_until_comitted(
                Confirmation::new(hashes[index]),
                &Event::Started,
            );
            (RequestCheck::Confirming { index, wait }, step)
        } else {
            (RequestCheck::Marking, Step::Perform(Action::SetFulfilledAt { id: request.id }))
        }
    }

    /// Makes one step of the settling of `request`: answers `event` with the
    /// next piece of outside work, or with the end of the settling. Begin
    /// with [`RequestCheck::Ready`] and [`Event::Started`].
    pub fn await_unconfirmed_request(
        &self,
        request: &ForcedExitRequest,
        state: RequestCheck,
        event: &Event,
    ) -> (next: (RequestCheck, Step))
        ensures
            (next.0, next.1@) == check_next(request@, state, *event),
    {
        match state {
            RequestCheck::Ready => match event {
                Event::Started => match &request.fulfilled_by {
                    Some(hashes) => {
                        if request.fulfilled_at.is_none() {
                            self.turn_to_hash(request, hashes, 0)
                        } else {
                            settled(Ok(()))
                        }
                    },
                    None => settled(Ok(())),
                },
                _ => settled(Err(Failure::UnexpectedEvent)),
            },
            RequestCheck::Confirming { index, wait } => match &request.fulfilled_by {
                Some(hashes) => {
                    if index < hashes.len() {
                        let (wait, step) = self.wait_until_comitted(wait, event);
                        match step {
                            Step::Perform(action) => (
                                RequestCheck::Confirming { index, wait },
                                Step::Perform(action),
                            ),
                            Step::Finished(Ok(_)) => self.turn_to_hash(request, hashes, index + 1),
                            Step::Finished(Err(failure)) => settled(Err(failure)),
                        }
                    } else {
                        settled(Err(Failure::UnexpectedEvent))
                    }
                },
                None => settled(Err(Failure::UnexpectedEvent)),
            },
            RequestCheck::Marking => match event {
                Event::Completed => settled(Ok(())),
                Event::Failed(error) => settled(Err(Failure::Host(*error))),
                _ => settled(Err(Failure::UnexpectedEvent)),
            },
            RequestCheck::Done => settled(Err(Failure::UnexpectedEvent)),
        }
    }

    fn turn_to_request(&self, requests: Vec<ForcedExitRequest>, start: usize) -> (next: (
        Reconciliation,
        Step,
    ))
        requires
            start <= requests@.len(),
        ensures
            (next.0, next.1@) == turn_to_request(requests, start as int),
    {
        let mut index = start;
        while index < requests.len()
            invariant
                start <= index <= requests@.len(),
                turn_to_request(requests, index as int) == turn_to_request(requests, start as int),
            decreases requests@.len() - index,
        {
            let (check, step) = self.await_unconfirmed_request(
                &requests[index],
                RequestCheck::Ready,
                &Event::Started,
            );
            match step {
                Step::Perform(action) => {
                    return (
                        Reconciliation::Checking { requests, index, check },
                        Step::Perform(action),
                    );
                },
                Step::Finished(Ok(_)) => {
                    index = index + 1;
                },
                Step::Finished(Err(_)) => {
                    let id = requests[index].id;
                    return (
                        Reconciliation::RollingBack { requests, index },
                        Step::Perform(Action::SetFulfilledBy { id, value: None }),
                    );
                },
            }
        }
        reconciled(Ok(()))
    }

    /// Makes one step of a reconciliation: answers `event` with the next
    /// piece of outside work, or with the end of the reconciliation. Begin
    /// with [`Reconciliation::Ready`] and [`Event::Started`].
    pub fn await_unconfirmed(&self, state: Reconciliation, event: Event) -> (next: (
        Reconciliation,
        Step,
    ))
        ensures
            (next.0, next.1@) == reconciliation_next(state, event),
    {
        match state {
            Reconciliation::Ready => match event {
                Event::Started => (
                    Reconciliation::Loading,
                    Step::Perform(Action::GetUnconfirmedRequests),
                ),
                _ => reconciled(Err(Failure::UnexpectedEvent)),
            },
            Reconciliation::Loading => match event {
                Event::UnconfirmedRequests(requests) => self.turn_to_request(requests, 0),
                Event::Failed(error) => reconciled(Err(Failure::Host(error))),
                _ => reconciled(Err(Failure::UnexpectedEvent)),
            },
            Reconciliation::Checking { requests, index, check } => {
                if index < requests.len() {
                    let (check, step) = self.await_unconfirmed_request(
                        &requests[index],
                        check,
                        &event,
                    );
                    match step {
                        Step::Perform(action) => (
                            Reconciliation::Checking { requests, index, check },
                            Step::Perform(action),
                        ),
                        Step::Finished(Ok(_)) => self.turn_to_request(requests, index + 1),
                        Step::Finished(Err(_)) => {
                            let id = requests[index].id;
                            (
                                Reconciliation::RollingBack { requests, index },
                                Step::Perform(Action::SetFulfilledBy { id, value: None }),
                            )
                        },
                    }
                } else {
                    reconciled(Err(Failure::UnexpectedEvent))
                }
            },
            Reconciliation::RollingBack { requests, index } => match event {
                Event::Completed => {
                    if index < requests.len() {
                        self.turn_to_request(requests, index + 1)
                    } else {
                        reconciled(Ok(()))
                    }
                },
                Event::Failed(error) => reconciled(Err(Failure::Host(error))),
                _ => reconciled(Err(Failure::UnexpectedEvent)),
            },
            Reconciliation::Done => reconciled(Err(Failure::UnexpectedEvent)),
        }
    }
}

} // verus!
