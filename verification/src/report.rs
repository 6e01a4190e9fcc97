use crate::error::BatchError;
use vstd::prelude::*;

verus! {

/// One slot's work for one round: the action to carry out there.
#[derive(Clone, Copy, Debug, PartialEq, Eq, Structural)]
pub struct StepRequest {
    pub slot_index: usize,
    pub action: i32,
}

/// What the caller's action brought about in one slot.
#[derive(Clone, Copy, Debug, PartialEq, Eq, Structural)]
pub struct StepOutcome {
    pub reward: i32,
    pub terminal: bool,
    pub truncated: bool,
    pub life_lost: bool,
}

impl StepOutcome {
    /// The outcome reported for a slot that was only reset.
    pub open spec fn spec_zero() -> StepOutcome {
        StepOutcome { reward: 0, terminal: false, truncated: false, life_lost: false }
    }

    /// The episode is over, by the game's end or by the frame budget.
    pub open spec fn spec_ended(self) -> bool {
        self.terminal || self.truncated
    }

    /// The slot stands at a boundary after which play has to be started anew.
    pub open spec fn spec_at_boundary(self) -> bool {
        self.terminal || self.truncated || self.life_lost
    }

    pub fn zero() -> (outcome: StepOutcome)
        ensures
            outcome == StepOutcome::spec_zero(),
    {
        StepOutcome { reward: 0, terminal: false, truncated: false, life_lost: false }
    }

    pub fn ended(&self) -> (ended: bool)
        ensures
            ended == self.spec_ended(),
    {
        self.terminal || self.truncated
    }

    pub fn at_boundary(&self) -> (at: bool)
        ensures
            at == self.spec_at_boundary(),
    {
        self.terminal || self.truncated || self.life_lost
    }
}

/// A slot's successful round: the observation and the outcome. Life loss is
/// reported as a flag of its own and is not folded into `terminal`.
#[derive(Debug)]
pub struct Observed {
    pub observation: Vec<u8>,
    pub reward: i32,
    pub terminal: bool,
    pub truncated: bool,
    pub life_lost: bool,
}

pub struct ObservedView {
    pub observation: Seq<u8>,
    pub reward: i32,
    pub terminal: bool,
    pub truncated: bool,
    pub life_lost: bool,
}

impl View for Observed {
    type V = ObservedView;

    open spec fn view(&self) -> ObservedView {
        ObservedView {
            observation: self.observation@,
            reward: self.reward,
            terminal: self.terminal,
            truncated: self.truncated,
            life_lost: self.life_lost,
        }
    }
}

impl ObservedView {
    pub open spec fn of(observation: Seq<u8>, outcome: StepOutcome) -> ObservedView {
        ObservedView {
            observation,
            reward: outcome.reward,
            terminal: outcome.terminal,
            truncated: outcome.truncated,
            life_lost: outcome.life_lost,
        }
    }
}

/// What one slot hands back for one round: its index, and either what was
/// observed or the fault that ended its round.
#[derive(Debug)]
pub struct StepReport {
    pub slot_index: usize,
    pub result: Result<Observed, BatchError>,
}

pub struct StepReportView {
    pub slot_index: usize,
    pub result: Result<ObservedView, BatchError>,
}

impl View for StepReport {
    type V = StepReportView;

    open spec fn view(&self) -> StepReportView {
        StepReportView {
            slot_index: self.slot_index,
            result: match self.result {
                Ok(observed) => Ok(observed@),
                Err(e) => Err(e),
            },
        }
    }
}

impl StepReport {
    /// The report of a round that went through.
    pub fn observed(slot_index: usize, observation: Vec<u8>, outcome: StepOutcome) -> (report: StepReport)
        ensures
            report@ == (StepReportView {
                slot_index,
                result: Ok(ObservedView::of(observation@, outcome)),
            }),
    {
        StepReport {
            slot_index,
            result: Ok(
                Observed {
                    observation,
                    reward: outcome.reward,
                    terminal: outcome.terminal,
                    truncated: outcome.truncated,
                    life_lost: outcome.life_lost,
                },
            ),
        }
    }

    /// The report of a slot that was reset: the first observation, no reward
    /// and no flag set.
    pub fn initial(slot_index: usize, observation: Vec<u8>) -> (report: StepReport)
        ensures
            report@ == (StepReportView {
                slot_index,
                result: Ok(ObservedView::of(observation@, StepOutcome::spec_zero())),
            }),
    {
        StepReport::observed(slot_index, observation, StepOutcome::zero())
    }

    /// The report of a slot whose simulator failed during the round.
    pub fn fault(slot_index: usize) -> (report: StepReport)
        ensures
            report@ == (StepReportView {
                slot_index,
                result: Err(BatchError::SlotFault { slot_index }),
            }),
    {
        StepReport { slot_index, result: Err(BatchError::SlotFault { slot_index }) }
    }

    pub fn is_fault(&self) -> (fault: bool)
        ensures
            fault == self@.result.is_err(),
    {
        self.result.is_err()
    }
}

} // verus!
