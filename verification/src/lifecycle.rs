use crate::atari::AtariView;
use crate::atari::Emulated;
use crate::report::StepOutcome;
use vstd::prelude::*;

verus! {

/// One piece of work for a slot's simulator.
#[derive(Clone, Copy, Debug, PartialEq, Eq, Structural)]
pub enum SlotCommand {
    /// Start a new episode.
    Reset,
    /// Carry out this action; its result goes into no report.
    Act(i32),
    /// Read the screen: what it shows is the round's observation.
    Observe,
}

/// What a slot does between rounds, on its own, when an episode ends or a
/// life is lost.
#[derive(Clone, Copy, Debug, PartialEq, Eq, Structural)]
pub struct LifecyclePolicy {
    /// The warmup after a boundary is a number of idle actions drawn evenly
    /// from `0..=max_noops`.
    pub max_noops: u32,
    /// The action that does nothing.
    pub noop_action: i32,
    /// The action that some games need before play goes on.
    pub fire_action: i32,
    /// The action sent right after the fire action.
    pub follow_up_action: i32,
    /// Whether warmup and fire actions count against the episode's frame
    /// budget.
    pub count_warmup_frames: bool,
}

impl LifecyclePolicy {
    /// The usual policy for the console's games: up to 30 idle actions, with
    /// action 0 idle, action 1 fire and action 2 sent after it; warmup frames
    /// do not count against the frame budget.
    pub open spec fn spec_standard() -> LifecyclePolicy {
        LifecyclePolicy {
            max_noops: 30,
            noop_action: 0,
            fire_action: 1,
            follow_up_action: 2,
            count_warmup_frames: false,
        }
    }

    pub fn standard() -> (policy: LifecyclePolicy)
        ensures
            policy == LifecyclePolicy::spec_standard(),
    {
        LifecyclePolicy {
            max_noops: 30,
            noop_action: 0,
            fire_action: 1,
            follow_up_action: 2,
            count_warmup_frames: false,
        }
    }

    /// The fire action and the action sent after it, if the slot's games
    /// know the fire action; nothing otherwise.
    pub open spec fn fire_sequence(self, fire_enabled: bool) -> Seq<SlotCommand> {
        if fire_enabled {
            seq![SlotCommand::Act(self.fire_action), SlotCommand::Act(self.follow_up_action)]
        } else {
            Seq::empty()
        }
    }

    /// The warmup: `noops` idle actions, then the fire sequence.
    pub open spec fn warmup(self, noops: nat, fire_enabled: bool) -> Seq<SlotCommand> {
        Seq::new(noops, |i: int| SlotCommand::Act(self.noop_action)) + self.fire_sequence(
            fire_enabled,
        )
    }

    /// What follows the caller's action in a slot: a reset if the episode has
    /// ended, the warmup if the slot is at a boundary, and then the
    /// observation.
    pub open spec fn spec_follow_up(
        self,
        outcome: StepOutcome,
        noops: nat,
        fire_enabled: bool,
    ) -> Seq<SlotCommand> {
        let reset = if outcome.spec_ended() {
            seq![SlotCommand::Reset]
        } else {
            Seq::empty()
        };
        let warmup = if outcome.spec_at_boundary() {
            self.warmup(noops, fire_enabled)
        } else {
            Seq::empty()
        };
        reset + warmup + seq![SlotCommand::Observe]
    }

    /// The work that follows the caller's action, in the order in which the
    /// simulator has to carry it out. `noops` is the number drawn for the
    /// warmup.
    pub fn follow_up(&self, outcome: &StepOutcome, noops: u32, fire_enabled: bool) -> (plan: Vec<SlotCommand>)
        ensures
            plan@ == self.spec_follow_up(*outcome, noops as nat, fire_enabled),
    {
        let mut plan: Vec<SlotCommand> = Vec::new();
        if outcome.ended() {
            plan.push(SlotCommand::Reset);
        }
        let ghost reset = plan@;
        if outcome.at_boundary() {
            let mut sent: u32 = 0;
            while sent < noops
                invariant
                    0 <= sent <= noops,
                    plan@ == reset + Seq::new(sent as nat, |i: int| SlotCommand::Act(self.noop_action)),
                decreases noops - sent,
            {
                plan.push(SlotCommand::Act(self.noop_action));
                sent = sent + 1;
                assert(plan@ =~= reset + Seq::new(
                    sent as nat,
                    |i: int| SlotCommand::Act(self.noop_action),
                ));
            }
            if fire_enabled {
                plan.push(SlotCommand::Act(self.fire_action));
                plan.push(SlotCommand::Act(self.follow_up_action));
            }
            assert(plan@ =~= reset + self.warmup(noops as nat, fire_enabled));
        }
        plan.push(SlotCommand::Observe);
        assert(plan@ =~= self.spec_follow_up(*outcome, noops as nat, fire_enabled));
        plan
    }
}

impl AtariView {
    /// The bookkeeping after the simulator has carried out `command` and
    /// answered with `answer`. After a reset only the lives in the answer
    /// count.
    pub open spec fn after(self, command: SlotCommand, answer: Emulated, counted: bool) -> AtariView {
        match command {
            SlotCommand::Reset => self.reset(answer.lives),
            SlotCommand::Act(_) => self.absorb(answer, counted),
            SlotCommand::Observe => self,
        }
    }

    /// The bookkeeping after the simulator has carried out all of `plan`,
    /// answering the command at each place with the answer at that place.
    pub open spec fn after_all(self, plan: Seq<SlotCommand>, answers: Seq<Emulated>, counted: bool) -> AtariView
        decreases plan.len(),
    {
        if plan.len() == 0 || answers.len() == 0 {
            self
        } else {
            self.after(plan[0], answers[0], counted).after_all(
                plan.drop_first(),
                answers.drop_first(),
                counted,
            )
        }
    }

    /// What an episode does not change: the actions, the screen, the frame
    /// budget and the pixel format.
    pub open spec fn same_setup(self, other: AtariView) -> bool {
        &&& self.action_set == other.action_set
        &&& self.screen_size == other.screen_size
        &&& self.max_frames == other.max_frames
        &&& self.gray_scale == other.gray_scale
    }
}

} // verus!
