//! Following one submitted transaction until the chain has executed it, or
//! until too much time has passed.

use vstd::prelude::*;

use crate::protocol::{Action, ActionView, Event, Step, StepView};
use crate::sender::ForcedExitSender;
use crate::types::{Failure, TxHash};

verus! {

/// The time between two receipt lookups, in milliseconds.
pub const POLL_INTERVAL_MILLIS: u64 = 200;

/// The time after which a transaction without a receipt is given up, in
/// milliseconds.
pub const CONFIRMATION_TIMEOUT_MILLIS: u64 = 120_000;

/// Where the wait for a receipt stands.
#[derive(Clone, Copy, Debug, PartialEq, Eq)]
pub enum WaitPhase {
    /// Nothing has been asked yet.
    Ready,
    /// A receipt lookup is under way.
    Looking,
    /// The time between two lookups is passing.
    Sleeping,
    /// The wait is over.
    Done,
}

/// The wait for the receipt of one transaction.
#[derive(Clone, Copy, Debug, PartialEq, Eq)]
pub struct Confirmation {
    pub tx_hash: TxHash,
    /// The time spent asleep so far, in milliseconds.
    pub time_passed: u64,
    pub phase: WaitPhase,
}

impl Confirmation {
    /// A wait that has not begun.
    pub open spec fn fresh(tx_hash: TxHash) -> Confirmation {
        Confirmation { tx_hash, time_passed: 0, phase: WaitPhase::Ready }
    }

    /// A wait that has not begun.
    pub fn new(tx_hash: TxHash) -> (wait: Confirmation)
        ensures
            wait == Confirmation::fresh(tx_hash),
    {
        Confirmation { tx_hash, time_passed: 0, phase: WaitPhase::Ready }
    }

    /// The wait, over.
    pub open spec fn done(self) -> Confirmation {
        Confirmation { phase: WaitPhase::Done, ..self }
    }

    /// The time spent asleep once one more interval has passed. The count
    /// stops at the largest number rather than wrap.
    pub open spec fn time_after_sleep(self) -> u64 {
        if self.time_passed > u64::MAX - POLL_INTERVAL_MILLIS {
            u64::MAX
        } else {
            (self.time_passed + POLL_INTERVAL_MILLIS) as u64
        }
    }

    /// Before each lookup: give up if `time_passed` has reached the timeout,
    /// else look the receipt up.
    pub open spec fn look_or_give_up(self, time_passed: u64) -> (Confirmation, StepView) {
        if time_passed >= CONFIRMATION_TIMEOUT_MILLIS {
            (
                Confirmation { time_passed, phase: WaitPhase::Done, ..self },
                StepView::Finished(Err(Failure::ConfirmationTimeout)),
            )
        } else {
            (
                Confirmation { time_passed, phase: WaitPhase::Looking, ..self },
                StepView::Perform(ActionView::GetReceipt { tx_hash: self.tx_hash }),
            )
        }
    }

    /// What the wait does on `event`.
    ///
    /// A receipt ends the wait, well or badly as the receipt says. Without a
    /// receipt the wait sleeps for one interval and looks again, unless the
    /// timeout has been reached. A lookup that fails ends the wait with that
    /// failure.
    pub open spec fn next(self, event: Event) -> (Confirmation, StepView) {
        match (self.phase, event) {
            (WaitPhase::Ready, Event::Started) => self.look_or_give_up(self.time_passed),
            (WaitPhase::Sleeping, Event::Completed) => self.look_or_give_up(
                self.time_after_sleep(),
            ),
            (WaitPhase::Looking, Event::Receipt(Some(receipt))) => if receipt.success {
                (self.done(), StepView::Finished(Ok(())))
            } else {
                (self.done(), StepView::Finished(Err(Failure::TransactionFailed)))
            },
            (WaitPhase::Looking, Event::Receipt(None)) => (
                Confirmation { phase: WaitPhase::Sleeping, ..self },
                StepView::Perform(ActionView::Sleep { millis: POLL_INTERVAL_MILLIS }),
            ),
            (WaitPhase::Looking, Event::Failed(error)) => (
                self.done(),
                StepView::Finished(Err(Failure::Host(error))),
            ),
            (WaitPhase::Sleeping, Event::Failed(error)) => (
                self.done(),
                StepView::Finished(Err(Failure::Host(error))),
            ),
            _ => (self.done(), StepView::Finished(Err(Failure::UnexpectedEvent))),
        }
    }

    fn finish(self, result: Result<(), Failure>) -> (next: (Confirmation, Step))
        ensures
            next.0 == self.done(),
            next.1@ == StepView::Finished(result),
    {
        (
            Confirmation { tx_hash: self.tx_hash, time_passed: self.time_passed, phase: WaitPhase::Done },
            Step::Finished(result),
        )
    }

    fn look(self, time_passed: u64) -> (next: (Confirmation, Step))
        ensures
            (next.0, next.1@) == self.look_or_give_up(time_passed),
    {
        if time_passed >= CONFIRMATION_TIMEOUT_MILLIS {
            (
                Confirmation { tx_hash: self.tx_hash, time_passed, phase: WaitPhase::Done },
                Step::Finished(Err(Failure::ConfirmationTimeout)),
            )
        } else {
            (
                Confirmation { tx_hash: self.tx_hash, time_passed, phase: WaitPhase::Looking },
                Step::Perform(Action::GetReceipt { tx_hash: self.tx_hash }),
            )
        }
    }
}

impl ForcedExitSender {
    /// Follows a submitted transaction: answers `event` with the next piece
    /// of outside work, or with the end of the wait. Begin with
    /// [`Confirmation::new`] and [`Event::Started`].
    pub fn wait_until_comitted(&self, wait: Confirmation, event: &Event) -> (next: (
        Confirmation,
        Step,
    ))
        ensures
            (next.0, next.1@) == wait.next(*event),
    {
        match wait.phase {
            WaitPhase::Ready => match event {
                Event::Started => wait.look(wait.time_passed),
                _ => wait.finish(Err(Failure::UnexpectedEvent)),
            },
            WaitPhase::Sleeping => match event {
                Event::Completed => {
                    let time_passed = if wait.time_passed > u64::MAX - POLL_INTERVAL_MILLIS {
                        u64::MAX
                    } else {
                        wait.time_passed + POLL_INTERVAL_MILLIS
                    };
                    wait.look(time_passed)
                },
                Event::Failed(error) => wait.finish(Err(Failure::Host(*error))),
                _ => wait.finish(Err(Failure::UnexpectedEvent)),
            },
            WaitPhase::Looking => match event {
                Event::Receipt(Some(receipt)) => {
                    if receipt.success {
                        wait.finish(Ok(()))
                    } else {
                        wait.finish(Err(Failure::TransactionFailed))
                    }
                },
                Event::Receipt(None) => (
                    Confirmation {
                        tx_hash: wait.tx_hash,
                        time_passed: wait.time_passed,
                        phase: WaitPhase::Sleeping,
                    },
                    Step::Perform(Action::Sleep { millis: POLL_INTERVAL_MILLIS }),
                ),
                Event::Failed(error) => wait.finish(Err(Failure::Host(*error))),
                _ => wait.finish(Err(Failure::UnexpectedEvent)),
            },
            WaitPhase::Done => wait.finish(Err(Failure::UnexpectedEvent)),
        }
    }
}

} // verus!
