//! Answering one observed payment: a single attempt at fulfilling the request
//! that the payment names, and the repetition of attempts that fail.

use vstd::prelude::*;

use crate::amount::Amount;
use crate::confirmation::Confirmation;
use crate::protocol::{Action, ActionView, Event, Step, StepView};
use crate::sender::{is_due, nonces_fit, ForcedExitSender};
use crate::types::{
    Failure, ForcedExitRequest, ForcedExitRequestId, ForcedExitRequestView, SenderAccountState,
    Timestamp, TxHash,
};

verus! {

/// The number of failed attempts in a row from which on each further failure
/// is reported to the operator.
pub const PROCESSING_ATTEMPTS: u8 = 3;

/// The time between a failed attempt and the next one, in milliseconds.
pub const RETRY_BACKOFF_MILLIS: u64 = 1_000;

/// Where one attempt at answering a payment stands.
#[derive(Debug, PartialEq, Eq)]
pub enum Attempt {
    /// Nothing has been asked yet.
    Ready,
    /// The request that the payment names is being read.
    AwaitingRequest,
    /// The request is to be fulfilled; the sender's state is being read.
    AwaitingSenderState { request: ForcedExitRequest },
    /// A batch of `batch_len` transactions is being sent.
    AwaitingSend { id: ForcedExitRequestId, batch_len: usize },
    /// The batch was sent; its hashes are being stored with the request.
    AwaitingRecord { id: ForcedExitRequestId, first: TxHash },
    /// The first transaction of the batch is being followed.
    Confirming { id: ForcedExitRequestId, wait: Confirmation },
    /// The chain has confirmed the batch; the request is being marked.
    AwaitingMark { id: ForcedExitRequestId },
    /// The attempt is over.
    Done,
}

/// The end of an attempt with `result`.
pub open spec fn attempt_over(result: Result<(), Failure>) -> (Attempt, StepView) {
    (Attempt::Done, StepView::Finished(result))
}

/// What an attempt does once the request that the payment names has been
/// read: where the request is due, it goes on to read the sender's state;
/// where it is not, the attempt ends well, with nothing done.
pub open spec fn validation_next(
    sender: ForcedExitSender,
    true_amount: nat,
    submission_time: Timestamp,
    found: Option<ForcedExitRequest>,
) -> (Attempt, StepView) {
    match found {
        Some(request) => if is_due(true_amount, submission_time, request@) {
            (
                Attempt::AwaitingSenderState { request },
                StepView::Perform(ActionView::GetSenderState { account_id: sender.account_id() }),
            )
        } else {
            attempt_over(Ok(()))
        },
        None => attempt_over(Ok(())),
    }
}

/// What an attempt does once the sender's state has been read: it builds one
/// exit per token of the request and asks for the batch to be sent.
pub open spec fn batch_next(
    sender: ForcedExitSender,
    request: ForcedExitRequestView,
    state: Option<SenderAccountState>,
) -> (Attempt, StepView) {
    match state {
        None => attempt_over(Err(Failure::SenderStateMissing)),
        Some(state) => if request.tokens.len() == 0 {
            attempt_over(Err(Failure::EmptyBatch))
        } else if !nonces_fit(state.nonce, request.tokens.len()) {
            attempt_over(Err(Failure::NonceOverflow))
        } else {
            (
                Attempt::AwaitingSend { id: request.id, batch_len: request.tokens.len() as usize },
                StepView::Perform(
                    ActionView::SendBatch {
                        txs: sender.batch(state.nonce, request.target, request.tokens),
                    },
                ),
            )
        },
    }
}

/// What an attempt does once the host has tried to send the batch. Hashes,
/// one per transaction, mean that the network has the batch: they are to be
/// stored with the request. A failure ends the attempt with nothing stored.
pub open spec fn submission_next(
    id: ForcedExitRequestId,
    batch_len: usize,
    event: Event,
) -> (Attempt, StepView) {
    match event {
        Event::BatchSent(hashes) => if hashes@.len() == batch_len && batch_len > 0 {
            (
                Attempt::AwaitingRecord { id, first: hashes@[0] },
                StepView::Perform(ActionView::SetFulfilledBy { id, value: Some(hashes@) }),
            )
        } else {
            attempt_over(Err(Failure::UnexpectedEvent))
        },
        Event::Failed(error) => attempt_over(Err(Failure::Host(error))),
        _ => attempt_over(Err(Failure::UnexpectedEvent)),
    }
}

/// What an attempt does while it follows the first transaction of its batch:
/// it waits on, and once the chain has confirmed the transaction it asks for
/// the request to be marked as fulfilled.
pub open spec fn confirmation_next(
    id: ForcedExitRequestId,
    wait: Confirmation,
    event: Event,
) -> (Attempt, StepView) {
    match wait.next(event) {
        (wait, StepView::Perform(action)) => (
            Attempt::Confirming { id, wait },
            StepView::Perform(action),
        ),
        (_, StepView::Finished(Ok(_))) => (
            Attempt::AwaitingMark { id },
            StepView::Perform(ActionView::SetFulfilledAt { id }),
        ),
        (_, StepView::Finished(Err(failure))) => attempt_over(Err(failure)),
    }
}

/// What an attempt does once a write that it asked for is done, or has
/// failed.
pub open spec fn after_write(event: Event, then: (Attempt, StepView)) -> (Attempt, StepView) {
    match event {
        Event::Completed => then,
        Event::Failed(error) => attempt_over(Err(Failure::Host(error))),
        _ => attempt_over(Err(Failure::UnexpectedEvent)),
    }
}

fn over(result: Result<(), Failure>) -> (next: (Attempt, Step))
    ensures
        (next.0, next.1@) == attempt_over(result),
{
    (Attempt::Done, Step::Finished(result))
}

/// Where the answer to one payment stands.
#[derive(Clone, Copy, Debug, PartialEq, Eq)]
pub enum RetryPhase {
    /// An attempt is under way.
    Trying,
    /// The operator is being told of repeated failure.
    Reporting,
    /// The time before the next attempt is passing.
    BackingOff,
    /// The payment has been answered.
    Done,
}

/// The answer to one payment: attempts, repeated until one ends well.
#[derive(Debug, PartialEq, Eq)]
pub struct Processing {
    /// The number of attempts that have failed so far. It stops at the
    /// largest number rather than wrap.
    pub attempts: u8,
    pub attempt: Attempt,
    pub phase: RetryPhase,
}

impl Processing {
    /// The answer to a payment, not begun.
    pub open spec fn fresh() -> Processing {
        Processing { attempts: 0, attempt: Attempt::Ready, phase: RetryPhase::Trying }
    }

    /// The answer to a payment, not begun.
    pub fn new() -> (state: Processing)
        ensures
            state == Processing::fresh(),
    {
        Processing { attempts: 0, attempt: Attempt::Ready, phase: RetryPhase::Trying }
    }
}

/// The number of failed attempts after one more.
pub open spec fn one_more(attempts: u8) -> u8 {
    if attempts == u8::MAX {
        u8::MAX
    } else {
        (attempts + 1) as u8
    }
}

/// What follows an attempt that failed and may be repeated: from the
/// threshold on the failure is reported first, and then the time before the
/// next attempt is let pass.
pub open spec fn after_failure(attempts: u8) -> (Processing, StepView) {
    if one_more(attempts) >= PROCESSING_ATTEMPTS {
        (
            Processing {
                attempts: one_more(attempts),
                attempt: Attempt::Ready,
                phase: RetryPhase::Reporting,
            },
            StepView::Perform(ActionView::ReportFailure { attempts: one_more(attempts) }),
        )
    } else {
        (
            Processing {
                attempts: one_more(attempts),
                attempt: Attempt::Ready,
                phase: RetryPhase::BackingOff,
            },
            StepView::Perform(ActionView::Sleep { millis: RETRY_BACKOFF_MILLIS }),
        )
    }
}

impl ForcedExitSender {
    /// The request identifier that the low digits of `amount` carry.
    pub open spec fn id_in(self, amount: nat) -> ForcedExitRequestId {
        (amount % self.id_space_size()) as i64
    }

    /// `amount` with the digits of the request identifier zeroed.
    pub open spec fn true_amount(self, amount: nat) -> nat {
        (amount - amount % self.id_space_size()) as nat
    }

    /// What one attempt at answering the payment of `amount`, observed at
    /// `submission_time`, does on `event`.
    ///
    /// The attempt reads the request that the amount names, validates it,
    /// reads the sender's nonce, has the batch sent, has its hashes stored,
    /// follows its first transaction and has the request marked as
    /// fulfilled. Outside work that fails ends the attempt with that failure.
    pub open spec fn attempt_next(
        self,
        amount: nat,
        submission_time: Timestamp,
        state: Attempt,
        event: Event,
    ) -> (Attempt, StepView) {
        match (state, event) {
            (Attempt::Ready, Event::Started) => (
                Attempt::AwaitingRequest,
                StepView::Perform(ActionView::GetRequestById { id: self.id_in(amount) }),
            ),
            (Attempt::AwaitingRequest, Event::Request(found)) => validation_next(
                self,
                self.true_amount(amount),
                submission_time,
                found,
            ),
            (Attempt::AwaitingSenderState { request }, Event::SenderState(state)) => batch_next(
                self,
                request@,
                state,
            ),
            (Attempt::AwaitingSend { id, batch_len }, event) => submission_next(
                id,
                batch_len,
                event,
            ),
            (Attempt::AwaitingRecord { id, first }, event) => after_write(
                event,
                confirmation_next(id, Confirmation::fresh(first), Event::Started),
            ),
            (Attempt::Confirming { id, wait }, event) => confirmation_next(id, wait, event),
            (Attempt::AwaitingMark { id }, event) => after_write(event, attempt_over(Ok(()))),
            (Attempt::AwaitingRequest, Event::Failed(error)) => attempt_over(
                Err(Failure::Host(error)),
            ),
            (Attempt::AwaitingSenderState { request }, Event::Failed(error)) => attempt_over(
                Err(Failure::Host(error)),
            ),
            _ => attempt_over(Err(Failure::UnexpectedEvent)),
        }
    }

    /// What the answer to the payment of `amount`, observed at
    /// `submission_time`, does on `event`.
    ///
    /// It makes attempts until one ends well. After an attempt that failed it
    /// counts the failure, reports it from [`PROCESSING_ATTEMPTS`] failures
    /// on, lets [`RETRY_BACKOFF_MILLIS`] pass and begins anew. Only a failure
    /// that no repetition can mend ends the work.
    pub open spec fn processing_next(
        self,
        amount: nat,
        submission_time: Timestamp,
        state: Processing,
        event: Event,
    ) -> (Processing, StepView) {
        match state.phase {
            RetryPhase::Trying => match self.attempt_next(
                amount,
                submission_time,
                state.attempt,
                event,
            ) {
                (attempt, StepView::Perform(action)) => (
                    Processing { attempt, ..state },
                    StepView::Perform(action),
                ),
                (attempt, StepView::Finished(Ok(_))) => (
                    Processing { attempt, phase: RetryPhase::Done, ..state },
                    StepView::Finished(Ok(())),
                ),
                (attempt, StepView::Finished(Err(failure))) => if failure.is_fatal() {
                    (
                        Processing { attempt, phase: RetryPhase::Done, ..state },
                        StepView::Finished(Err(failure)),
                    )
                } else {
                    after_failure(state.attempts)
                },
            },
            RetryPhase::Reporting => (
                Processing { phase: RetryPhase::BackingOff, ..state },
                StepView::Perform(ActionView::Sleep { millis: RETRY_BACKOFF_MILLIS }),
            ),
            RetryPhase::BackingOff => (
                Processing {
                    attempt: Attempt::AwaitingRequest,
                    phase: RetryPhase::Trying,
                    ..state
                },
                StepView::Perform(ActionView::GetRequestById { id: self.id_in(amount) }),
            ),
            RetryPhase::Done => (state, StepView::Finished(Err(Failure::UnexpectedEvent))),
        }
    }

    /// Decides what follows the host's try at sending a batch of `batch_len`
    /// transactions for the request `id`: on success the hashes are to be
    /// stored as the request's submission, on failure nothing is.
    pub fn send_transactions(&self, id: ForcedExitRequestId, batch_len: usize, event: Event) -> (next:
        (Attempt, Step))
        ensures
            (next.0, next.1@) == submission_next(id, batch_len, event),
    {
        match event {
            Event::BatchSent(hashes) => {
                if hashes.len() == batch_len && batch_len > 0 {
                    let first = hashes[0];
                    (
                        Attempt::AwaitingRecord { id, first },
                        Step::Perform(Action::SetFulfilledBy { id, value: Some(hashes) }),
                    )
                } else {
                    over(Err(Failure::UnexpectedEvent))
                }
            },
            Event::Failed(error) => over(Err(Failure::Host(error))),
            _ => over(Err(Failure::UnexpectedEvent)),
        }
    }

    fn validate(
        &self,
        amount: &Amount,
        submission_time: Timestamp,
        found: Option<ForcedExitRequest>,
    ) -> (next: (Attempt, Step))
        ensures
            (next.0, next.1@) == validation_next(
                *self,
                self.true_amount(amount@),
                submission_time,
                found,
            ),
    {
        let (_, true_amount) = self.extract_id_from_amount(amount.clone());
        match found {
            Some(request) => {
                if self.check_found_request(&true_amount, submission_time, &request) {
                    (
                        Attempt::AwaitingSenderState { request },
                        Step::Perform(
                            Action::GetSenderState { account_id: self.sender_account_id() },
                        ),
                    )
                } else {
                    over(Ok(()))
                }
            },
            None => over(Ok(())),
        }
    }

    fn prepare_batch(&self, request: &ForcedExitRequest, state: Option<SenderAccountState>) -> (next:
        (Attempt, Step))
        ensures
            (next.0, next.1@) == batch_next(*self, request@, state),
    {
        let state = match state {
            Some(state) => state,
            None => {
                return over(Err(Failure::SenderStateMissing));
            },
        };
        if request.tokens.len() == 0 {
            return over(Err(Failure::EmptyBatch));
        }
        match self.build_batch(state.nonce, request) {
            Ok(txs) => (
                Attempt::AwaitingSend { id: request.id, batch_len: txs.len() },
                Step::Perform(Action::SendBatch { txs }),
            ),
            Err(_) => over(Err(Failure::NonceOverflow)),
        }
    }

    fn follow(&self, id: ForcedExitRequestId, wait: Confirmation, event: &Event) -> (next: (
        Attempt,
        Step,
    ))
        ensures
            (next.0, next.1@) == confirmation_next(id, wait, *event),
    {
        let (wait, step) = self.wait_until_comitted(wait, event);
        match step {
            Step::Perform(action) => (Attempt::Confirming { id, wait }, Step::Perform(action)),
            Step::Finished(Ok(_)) => (
                Attempt::AwaitingMark { id },
                Step::Perform(Action::SetFulfilledAt { id }),
            ),
            Step::Finished(Err(failure)) => over(Err(failure)),
        }
    }

    /// Makes one step of an attempt at answering the payment of `amount`
    /// observed at `submission_time`: answers `event` with the next piece of
    /// outside work, or with the end of the attempt. Begin with
    /// [`Attempt::Ready`] and [`Event::Started`].
    pub fn try_process_request(
        &self,
        amount: &Amount,
        submission_time: Timestamp,
        state: Attempt,
        event: Event,
    ) -> (next: (Attempt, Step))
        ensures
            (next.0, next.1@) == self.attempt_next(amount@, submission_time, state, event),
    {
        match state {
            Attempt::Ready => match event {
                Event::Started => {
                    let (id, _) = self.extract_id_from_amount(amount.clone());
                    (Attempt::AwaitingRequest, Step::Perform(Action::GetRequestById { id }))
                },
                _ => over(Err(Failure::UnexpectedEvent)),
            },
            Attempt::AwaitingRequest => match event {
                Event::Request(found) => self.validate(amount, submission_time, found),
                Event::Failed(error) => over(Err(Failure::Host(error))),
                _ => over(Err(Failure::UnexpectedEvent)),
            },
            Attempt::AwaitingSenderState { request } => match event {
                Event::SenderState(state) => self.prepare_batch(&request, state),
                Event::Failed(error) => over(Err(Failure::Host(error))),
                _ => over(Err(Failure::UnexpectedEvent)),
            },
            Attempt::AwaitingSend { id, batch_len } => self.send_transactions(id, batch_len, event),
            Attempt::AwaitingRecord { id, first } => match event {
                Event::Completed => self.follow(id, Confirmation::new(first), &Event::Started),
                Event::Failed(error) => over(Err(Failure::Host(error))),
                _ => over(Err(Failure::UnexpectedEvent)),
            },
            Attempt::Confirming { id, wait } => self.follow(id, wait, &event),
            Attempt::AwaitingMark { id } => match event {
                Event::Completed => over(Ok(())),
                Event::Failed(error) => over(Err(Failure::Host(error))),
                _ => over(Err(Failure::UnexpectedEvent)),
            },
            Attempt::Done => over(Err(Failure::UnexpectedEvent)),
        }
    }

    /// Makes one step of the answer to the payment of `amount` observed at
    /// `submission_time`: answers `event` with the next piece of outside
    /// work, or with the end of the work. Begin with [`Processing::new`] and
    /// [`Event::Started`].
    pub fn process_request(
        &self,
        amount: &Amount,
        submission_time: Timestamp,
        state: Processing,
        event: Event,
    ) -> (next: (Processing, Step))
        ensures
            (next.0, next.1@) == self.processing_next(amount@, submission_time, state, event),
    {
        let Processing { attempts, attempt, phase } = state;
        match phase {
            RetryPhase::Trying => {
                let (attempt, step) = self.try_process_request(
                    amount,
                    submission_time,
                    attempt,
                    event,
                );
                match step {
                    Step::Perform(action) => (
                        Processing { attempts, attempt, phase: RetryPhase::Trying },
                        Step::Perform(action),
                    ),
                    Step::Finished(Ok(_)) => (
                        Processing { attempts, attempt, phase: RetryPhase::Done },
                        Step::Finished(Ok(())),
                    ),
                    Step::Finished(Err(failure)) => {
                        if failure.fatal() {
                            (
                                Processing { attempts, attempt, phase: RetryPhase::Done },
                                Step::Finished(Err(failure)),
                            )
                        } else {
                            let attempts = if attempts == u8::MAX {
                                u8::MAX
                            } else {
                                attempts + 1
                            };
                            if attempts >= PROCESSING_ATTEMPTS {
                                (
                                    Processing {
                                        attempts,
                                        attempt: Attempt::Ready,
                                        phase: RetryPhase::Reporting,
                                    },
                                    Step::Perform(Action::ReportFailure { attempts }),
                                )
                            } else {
                                (
                                    Processing {
                                        attempts,
                                        attempt: Attempt::Ready,
                                        phase: RetryPhase::BackingOff,
                                    },
                                    Step::Perform(Action::Sleep { millis: RETRY_BACKOFF_MILLIS }),
                                )
                            }
                        }
                    },
                }
            },
            RetryPhase::Reporting => (
                Processing { attempts, attempt, phase: RetryPhase::BackingOff },
                Step::Perform(Action::Sleep { millis: RETRY_BACKOFF_MILLIS }),
            ),
            RetryPhase::BackingOff => {
                let (id, _) = self.extract_id_from_amount(amount.clone());
                (
                    Processing {
                        attempts,
                        attempt: Attempt::AwaitingRequest,
                        phase: RetryPhase::Trying,
                    },
                    Step::Perform(Action::GetRequestById { id }),
                )
            },
            RetryPhase::Done => (
                Processing { attempts, attempt, phase: RetryPhase::Done },
                Step::Finished(Err(Failure::UnexpectedEvent)),
            ),
        }
    }
}

} // verus!
