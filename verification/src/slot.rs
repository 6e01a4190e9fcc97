use crate::atari::frame_bytes;
use crate::atari::Atari;
use crate::atari::AtariView;
use crate::atari::Emulated;
use crate::error::BatchError;
use crate::frame::downsample;
use crate::frame::is_downsampled;
use crate::lifecycle::LifecyclePolicy;
use crate::lifecycle::SlotCommand;
use crate::report::StepOutcome;
use crate::report::StepReport;
use crate::report::StepReportView;
use crate::sampling::draw_up_to;
use crate::sampling::seeded;
use rand::rngs::StdRng;
use vstd::prelude::*;

verus! {

/// The 64 bits that start a slot's generator: the seed's own bits, with the
/// sign carried on.
pub open spec fn seed_bits(seed: i32) -> int {
    if seed >= 0 {
        seed as int
    } else {
        0x1_0000_0000_0000_0000 + seed
    }
}

/// One slot's share of a round: what the caller's action brought about, the
/// number drawn for the warmup, and the work that is left for the simulator.
pub struct Turn {
    pub outcome: StepOutcome,
    pub noops: u32,
    pub plan: Vec<SlotCommand>,
}

/// One environment of the batch, as mathematical values.
pub struct SlotView {
    pub index: usize,
    pub tracker: AtariView,
    pub fire_reset_enabled: bool,
    pub policy: LifecyclePolicy,
    pub stride: usize,
}

/// One environment of the batch: its place, its episode bookkeeping and what
/// it does on its own at the end of an episode or of a life. The simulator
/// itself lives with whoever drives the slot.
pub struct EnvironmentSlot {
    index: usize,
    tracker: Atari,
    fire_reset_enabled: bool,
    policy: LifecyclePolicy,
    stride: usize,
    rng: StdRng,
}

impl View for EnvironmentSlot {
    type V = SlotView;

    closed spec fn view(&self) -> SlotView {
        SlotView {
            index: self.index,
            tracker: self.tracker@,
            fire_reset_enabled: self.fire_reset_enabled,
            policy: self.policy,
            stride: self.stride,
        }
    }
}

impl SlotView {
    /// Bytes in one full-size screen of the slot's simulator.
    pub open spec fn screen_bytes(self) -> int {
        frame_bytes(
            self.tracker.screen_size.0 as int,
            self.tracker.screen_size.1 as int,
            self.tracker.gray_scale,
        )
    }

    /// The report that the slot makes of `outcome` when the simulator shows
    /// `screen`: a fault if the screen has the wrong size, else the outcome
    /// with the screen downsampled.
    pub open spec fn reports(self, outcome: StepOutcome, screen: Seq<u8>, report: StepReportView) -> bool {
        &&& report.slot_index == self.index
        &&& if screen.len() == self.screen_bytes() {
            &&& report.result matches Ok(observed)
            &&& is_downsampled(
                observed.observation,
                screen,
                self.tracker.screen_size.0 as int,
                self.tracker.screen_size.1 as int,
                crate::atari::channels(self.tracker.gray_scale),
                self.stride as int,
            )
            &&& observed.reward == outcome.reward
            &&& observed.terminal == outcome.terminal
            &&& observed.truncated == outcome.truncated
            &&& observed.life_lost == outcome.life_lost
        } else {
            report.result == Err::<crate::report::ObservedView, BatchError>(
                BatchError::SlotFault { slot_index: self.index },
            )
        }
    }
}

/// The step information as an outcome.
pub open spec fn outcome_of(info: (i32, bool, bool, bool)) -> StepOutcome {
    StepOutcome { reward: info.0, terminal: info.1, truncated: info.2, life_lost: info.3 }
}

impl EnvironmentSlot {
    /// The bookkeeping is sound, the stride is at least one, and the fire
    /// sequence is enabled exactly if the simulator offers the fire action.
    pub closed spec fn wf(&self) -> bool {
        &&& self.tracker.wf()
        &&& self.stride >= 1
        &&& self.fire_reset_enabled == self.tracker@.action_set.contains(self.policy.fire_action)
    }

    /// Slot `index` of a batch. Observations keep every `stride`-th row and
    /// column; the warmup numbers come from a generator started from `seed`.
    pub fn new(
        index: usize,
        tracker: Atari,
        policy: LifecyclePolicy,
        stride: usize,
        seed: i32,
    ) -> (slot: EnvironmentSlot)
        requires
            tracker.wf(),
            stride >= 1,
        ensures
            slot.wf(),
            slot@ == (SlotView {
                index,
                tracker: tracker@,
                fire_reset_enabled: tracker@.action_set.contains(policy.fire_action),
                policy,
                stride,
            }),
    {
        let fire_reset_enabled = tracker.offers(policy.fire_action);
        let rng = seeded(seed_to_bits(seed));
        EnvironmentSlot { index, tracker, fire_reset_enabled, policy, stride, rng }
    }

    pub fn index(&self) -> (index: usize)
        ensures
            index == self@.index,
    {
        self.index
    }

    /// Whether the slot sends the fire sequence after a boundary: it does
    /// where the simulator offers the fire action.
    pub fn fire_reset_enabled(&self) -> (enabled: bool)
        ensures
            enabled == self@.fire_reset_enabled,
    {
        self.fire_reset_enabled
    }

    pub fn tracker(&self) -> (tracker: &Atari)
        ensures
            tracker@ == self@.tracker,
            self.wf() ==> tracker.wf(),
    {
        &self.tracker
    }

    /// Takes in what the simulator answered to the caller's action, and says
    /// what is left to do in this round. A reward that the score cannot hold
    /// is a fault, and leaves the slot as it was.
    pub fn step(&mut self, answer: Emulated) -> (turn: Result<Turn, BatchError>)
        requires
            old(self).wf(),
        ensures
            final(self).wf(),
            match turn {
                Ok(turn) => {
                    &&& old(self)@.tracker.can_take(answer.reward)
                    &&& final(self)@ == (SlotView {
                        tracker: old(self)@.tracker.step(answer),
                        ..old(self)@
                    })
                    &&& turn.outcome == outcome_of(old(self)@.tracker.step_result(answer))
                    &&& turn.noops <= old(self)@.policy.max_noops
                    &&& !turn.outcome.spec_at_boundary() ==> turn.noops == 0
                    &&& turn.plan@ == old(self)@.policy.spec_follow_up(
                        turn.outcome,
                        turn.noops as nat,
                        old(self)@.fire_reset_enabled,
                    )
                },
                Err(e) => {
                    &&& !old(self)@.tracker.can_take(answer.reward)
                    &&& e == BatchError::SlotFault { slot_index: old(self)@.index }
                    &&& final(self)@ == old(self)@
                },
            },
    {
        if !self.tracker.can_take(answer.reward) {
            return Err(BatchError::SlotFault { slot_index: self.index });
        }
        let info = self.tracker.step(answer);
        let outcome = StepOutcome {
            reward: info.0,
            terminal: info.1,
            truncated: info.2,
            life_lost: info.3,
        };
        let noops: u32 = if outcome.at_boundary() {
            draw_up_to(&mut self.rng, self.policy.max_noops)
        } else {
            0
        };
        let plan = self.policy.follow_up(&outcome, noops, self.fire_reset_enabled);
        Ok(Turn { outcome, noops, plan })
    }

    /// Takes in what the simulator answered to one command of a turn's plan.
    /// A reward that the score cannot hold is a fault, and leaves the slot as
    /// it was.
    pub fn absorb(&mut self, command: SlotCommand, answer: Emulated) -> (done: Result<(), BatchError>)
        requires
            old(self).wf(),
        ensures
            final(self).wf(),
            done.is_ok() == (command is Act ==> old(self)@.tracker.can_take(answer.reward)),
            done.is_ok() ==> final(self)@ == (SlotView {
                tracker: old(self)@.tracker.after(
                    command,
                    answer,
                    old(self)@.policy.count_warmup_frames,
                ),
                ..old(self)@
            }),
            done matches Err(e) ==> e == (BatchError::SlotFault { slot_index: old(self)@.index })
                && final(self)@ == old(self)@,
    {
        match command {
            SlotCommand::Reset => {
                self.tracker.reset(answer.lives);
            },
            SlotCommand::Act(_) => {
                if !self.tracker.can_take(answer.reward) {
                    return Err(BatchError::SlotFault { slot_index: self.index });
                }
                self.tracker.absorb(answer, self.policy.count_warmup_frames);
            },
            SlotCommand::Observe => {},
        }
        Ok(())
    }

    /// Starts the slot's first or next episode in a round of resets; `lives`
    /// is what the simulator shows after its own reset.
    pub fn reset(&mut self, lives: i32)
        requires
            old(self).wf(),
        ensures
            final(self).wf(),
            final(self)@ == (SlotView { tracker: old(self)@.tracker.reset(lives), ..old(self)@ }),
    {
        self.tracker.reset(lives);
    }

    /// The slot's report for this round: `outcome` and what `screen` shows,
    /// downsampled. A screen of the wrong size is a fault.
    pub fn report(&self, outcome: StepOutcome, screen: &Vec<u8>) -> (report: StepReport)
        requires
            self.wf(),
        ensures
            self@.reports(outcome, screen@, report@),
    {
        if screen.len() != self.tracker.frame_len() {
            return StepReport::fault(self.index);
        }
        let (height, width) = self.tracker.dim();
        let per_pixel: usize = if self.tracker.gray_scale() {
            1
        } else {
            3
        };
        let small = downsample(screen, height, width, per_pixel, self.stride);
        StepReport::observed(self.index, small, outcome)
    }

    /// The slot's report after a reset: what `screen` shows, downsampled, no
    /// reward and no flag set.
    pub fn initial_report(&self, screen: &Vec<u8>) -> (report: StepReport)
        requires
            self.wf(),
        ensures
            self@.reports(StepOutcome::spec_zero(), screen@, report@),
    {
        self.report(StepOutcome::zero(), screen)
    }

    /// The slot's report for a round in which its simulator failed.
    pub fn fault(&self) -> (report: StepReport)
        ensures
            report@ == (StepReportView {
                slot_index: self@.index,
                result: Err(BatchError::SlotFault { slot_index: self@.index }),
            }),
    {
        StepReport::fault(self.index)
    }
}

/// The seed's bits as an unsigned number.
pub fn seed_to_bits(seed: i32) -> (bits: u64)
    ensures
        bits == seed_bits(seed),
{
    if seed >= 0 {
        seed as u64
    } else {
        let below: u64 = (-(seed as i64)) as u64;
        u64::MAX - below + 1
    }
}

/// One round of one slot as it went: what the simulator answered to the
/// caller's action, the number drawn for the warmup, and what the simulator
/// answered to each command of the plan, place by place.
pub struct RoundTrace {
    pub answer: Emulated,
    pub noops: nat,
    pub follow_answers: Seq<Emulated>,
}

impl SlotView {
    /// What the caller's action brings about, given the simulator's answer.
    pub open spec fn outcome(self, answer: Emulated) -> StepOutcome {
        outcome_of(self.tracker.step_result(answer))
    }

    /// The work that follows the caller's action in the round `trace`.
    pub open spec fn plan(self, trace: RoundTrace) -> Seq<SlotCommand> {
        self.policy.spec_follow_up(self.outcome(trace.answer), trace.noops, self.fire_reset_enabled)
    }

    /// The slot after the round `trace`.
    pub open spec fn after_round(self, trace: RoundTrace) -> SlotView {
        SlotView {
            tracker: self.tracker.step(trace.answer).after_all(
                self.plan(trace),
                trace.follow_answers,
                self.policy.count_warmup_frames,
            ),
            ..self
        }
    }

    /// Every command of every round's plan was answered.
    pub open spec fn answered(self, rounds: Seq<RoundTrace>) -> bool
        decreases rounds.len(),
    {
        rounds.len() > 0 ==> {
            &&& rounds[0].follow_answers.len() == self.plan(rounds[0]).len()
            &&& self.after_round(rounds[0]).answered(rounds.drop_first())
        }
    }

    /// What the slot reports round by round.
    pub open spec fn outcomes(self, rounds: Seq<RoundTrace>) -> Seq<StepOutcome>
        decreases rounds.len(),
    {
        if rounds.len() == 0 {
            Seq::empty()
        } else {
            seq![self.outcome(rounds[0].answer)] + self.after_round(rounds[0]).outcomes(
                rounds.drop_first(),
            )
        }
    }
}

/// Commands that are answered without a reset leave the setup alone, and the
/// frame counter too where their frames do not count.
proof fn lemma_warmup_keeps_budget(
    tracker: AtariView,
    plan: Seq<SlotCommand>,
    answers: Seq<Emulated>,
    counted: bool,
)
    requires
        forall|i: int| 0 <= i < plan.len() ==> plan[i] != SlotCommand::Reset,
    ensures
        tracker.after_all(plan, answers, counted).same_setup(tracker),
        !counted ==> tracker.after_all(plan, answers, counted).frame_count == tracker.frame_count,
    decreases plan.len(),
{
    if plan.len() > 0 && answers.len() > 0 {
        let next = tracker.after(plan[0], answers[0], counted);
        assert forall|i: int| 0 <= i < plan.drop_first().len() implies plan.drop_first()[i]
            != SlotCommand::Reset by {
            assert(plan.drop_first()[i] == plan[i + 1]);
        }
        lemma_warmup_keeps_budget(next, plan.drop_first(), answers.drop_first(), counted);
    }
}

/// The shape of a plan: it ends with its one observation, and a reset stands
/// only at its head, exactly when the episode has ended.
proof fn lemma_follow_up_shape(policy: LifecyclePolicy, outcome: StepOutcome, noops: nat, fire: bool)
    ensures
        ({
            let plan = policy.spec_follow_up(outcome, noops, fire);
            &&& plan.len() >= 1
            &&& plan.last() == SlotCommand::Observe
            &&& forall|i: int| 0 <= i < plan.len() - 1 ==> plan[i] != SlotCommand::Observe
            &&& forall|i: int| 1 <= i < plan.len() ==> plan[i] != SlotCommand::Reset
            &&& outcome.spec_ended() ==> plan.len() >= 2 && plan[0] == SlotCommand::Reset
            &&& !outcome.spec_ended() ==> plan[0] != SlotCommand::Reset
        }),
{
    let idle = Seq::new(noops, |i: int| SlotCommand::Act(policy.noop_action));
    let warmup = policy.warmup(noops, fire);
    assert forall|i: int| 0 <= i < warmup.len() implies warmup[i] is Act by {
        if i < noops {
            assert(warmup[i] == idle[i]);
        }
    }
}

/// A round that ends an episode takes its observation only after the reset,
/// and leaves nothing of the ended episode behind: whatever score, lives and
/// frames the slot had counted, the next round starts from the same
/// bookkeeping. Where warmup frames do not count, it starts at frame zero.
pub proof fn lemma_ended_round_starts_fresh(slot: SlotView, other: SlotView, trace: RoundTrace)
    requires
        trace.answer.game_over,
        trace.follow_answers.len() == slot.plan(trace).len(),
        other.tracker.same_setup(slot.tracker),
        other.policy == slot.policy,
        other.fire_reset_enabled == slot.fire_reset_enabled,
    ensures
        slot.outcome(trace.answer).terminal,
        slot.plan(trace)[0] == SlotCommand::Reset,
        slot.plan(trace).last() == SlotCommand::Observe,
        forall|i: int| 0 <= i < slot.plan(trace).len() - 1 ==> slot.plan(trace)[i] != SlotCommand::Observe,
        slot.after_round(trace).tracker == other.after_round(trace).tracker,
        slot.after_round(trace).tracker.same_setup(slot.tracker),
        !slot.policy.count_warmup_frames ==> slot.after_round(trace).tracker.frame_count == 0,
{
    let counted = slot.policy.count_warmup_frames;
    let plan = slot.plan(trace);
    let answers = trace.follow_answers;
    lemma_follow_up_shape(slot.policy, slot.outcome(trace.answer), trace.noops, slot.fire_reset_enabled);
    assert(other.plan(trace) == plan);
    let lives = answers[0].lives;
    let mine = slot.tracker.step(trace.answer);
    let theirs = other.tracker.step(trace.answer);
    assert(mine.after(plan[0], answers[0], counted) == mine.reset(lives));
    assert(mine.reset(lives) == theirs.reset(lives));
    assert forall|i: int| 0 <= i < plan.drop_first().len() implies plan.drop_first()[i]
        != SlotCommand::Reset by {
        assert(plan.drop_first()[i] == plan[i + 1]);
    }
    lemma_warmup_keeps_budget(mine.reset(lives), plan.drop_first(), answers.drop_first(), counted);
}

/// The reward, terminal and truncation flags that a slot reports, round after
/// round, are fixed by the rewards and game-over flags that its simulator
/// answers to the caller's actions, and by the frame budget. Where warmup
/// frames do not count, neither the numbers drawn for the warmups nor what
/// happens during them shows in these flags: two slots whose simulators give
/// the same answers report the same.
pub proof fn lemma_flags_determined(
    slot: SlotView,
    other: SlotView,
    rounds: Seq<RoundTrace>,
    other_rounds: Seq<RoundTrace>,
)
    requires
        slot.tracker.max_frames == other.tracker.max_frames,
        slot.tracker.frame_count == other.tracker.frame_count,
        !slot.policy.count_warmup_frames,
        !other.policy.count_warmup_frames,
        rounds.len() == other_rounds.len(),
        forall|i: int|
            0 <= i < rounds.len() ==> (#[trigger] rounds[i]).answer.reward
                == other_rounds[i].answer.reward && rounds[i].answer.game_over
                == other_rounds[i].answer.game_over,
        slot.answered(rounds),
        other.answered(other_rounds),
    ensures
        slot.outcomes(rounds).len() == rounds.len(),
        other.outcomes(other_rounds).len() == rounds.len(),
        forall|i: int|
            0 <= i < rounds.len() ==> {
                &&& (#[trigger] slot.outcomes(rounds)[i]).reward == other.outcomes(
                    other_rounds,
                )[i].reward
                &&& slot.outcomes(rounds)[i].terminal == other.outcomes(other_rounds)[i].terminal
                &&& slot.outcomes(rounds)[i].truncated == other.outcomes(other_rounds)[i].truncated
            },
    decreases rounds.len(),
{
    if rounds.len() > 0 {
        let mine = rounds[0];
        let theirs = other_rounds[0];
        let next = slot.after_round(mine);
        let other_next = other.after_round(theirs);
        assert(slot.outcome(mine.answer).spec_ended() == other.outcome(theirs.answer).spec_ended());
        lemma_frames_after_round(slot, mine);
        lemma_frames_after_round(other, theirs);
        assert forall|i: int| 0 <= i < rounds.drop_first().len() implies (
        #[trigger] rounds.drop_first()[i]).answer.reward == other_rounds.drop_first()[i].answer.reward
            && rounds.drop_first()[i].answer.game_over
            == other_rounds.drop_first()[i].answer.game_over by {
            assert(rounds.drop_first()[i] == rounds[i + 1]);
            assert(other_rounds.drop_first()[i] == other_rounds[i + 1]);
        }
        lemma_flags_determined(next, other_next, rounds.drop_first(), other_rounds.drop_first());
        let tail = next.outcomes(rounds.drop_first());
        let other_tail = other_next.outcomes(other_rounds.drop_first());
        assert forall|i: int| 0 <= i < rounds.len() implies {
            &&& (#[trigger] slot.outcomes(rounds)[i]).reward == other.outcomes(other_rounds)[i].reward
            &&& slot.outcomes(rounds)[i].terminal == other.outcomes(other_rounds)[i].terminal
            &&& slot.outcomes(rounds)[i].truncated == other.outcomes(other_rounds)[i].truncated
        } by {
            if i > 0 {
                assert(slot.outcomes(rounds)[i] == tail[i - 1]);
                assert(other.outcomes(other_rounds)[i] == other_tail[i - 1]);
            }
        }
    }
}

/// Where warmup frames do not count, a round leaves the frame counter at zero
/// if it ended the episode, and one frame further if it did not; the frame
/// budget stays what it was.
proof fn lemma_frames_after_round(slot: SlotView, trace: RoundTrace)
    requires
        !slot.policy.count_warmup_frames,
        trace.follow_answers.len() == slot.plan(trace).len(),
    ensures
        slot.after_round(trace).tracker.max_frames == slot.tracker.max_frames,
        slot.after_round(trace).policy == slot.policy,
        slot.after_round(trace).tracker.frame_count == if slot.outcome(trace.answer).spec_ended() {
            0
        } else {
            slot.tracker.next_frame_count()
        },
{
    let plan = slot.plan(trace);
    let answers = trace.follow_answers;
    let stepped = slot.tracker.step(trace.answer);
    lemma_follow_up_shape(slot.policy, slot.outcome(trace.answer), trace.noops, slot.fire_reset_enabled);
    if slot.outcome(trace.answer).spec_ended() {
        let fresh = stepped.reset(answers[0].lives);
        assert(stepped.after(plan[0], answers[0], false) == fresh);
        assert forall|i: int| 0 <= i < plan.drop_first().len() implies plan.drop_first()[i]
            != SlotCommand::Reset by {
            assert(plan.drop_first()[i] == plan[i + 1]);
        }
        lemma_warmup_keeps_budget(fresh, plan.drop_first(), answers.drop_first(), false);
    } else {
        assert forall|i: int| 0 <= i < plan.len() implies plan[i] != SlotCommand::Reset by {}
        lemma_warmup_keeps_budget(stepped, plan, answers, false);
    }
}

} // verus!
