use ale_env::atari::Emulated;
use ale_env::error::BatchError;
use ale_env::lifecycle::LifecyclePolicy;
use ale_env::lifecycle::SlotCommand;
use ale_env::report::StepOutcome;
use ale_env::slot::seed_to_bits;
use ale_env::slot::EnvironmentSlot;
use ale_env::Atari;

fn policy(max_noops: u32) -> LifecyclePolicy {
    LifecyclePolicy {
        max_noops,
        noop_action: 0,
        fire_action: 1,
        follow_up_action: 2,
        count_warmup_frames: false,
    }
}

fn outcome(terminal: bool, truncated: bool, life_lost: bool) -> StepOutcome {
    StepOutcome { reward: 0, terminal, truncated, life_lost }
}

fn answer(reward: i32, game_over: bool, lives: i32) -> Emulated {
    Emulated { reward, game_over, lives }
}

fn slot_with(actions: Vec<i32>, policy: LifecyclePolicy, max_frames: u32, seed: i32) -> EnvironmentSlot {
    let tracker = Atari::new(actions, (4, 4), max_frames, true);
    EnvironmentSlot::new(3, tracker, policy, 2, seed)
}

#[test]
fn a_quiet_step_is_followed_by_the_observation_only() {
    let plan = policy(30).follow_up(&outcome(false, false, false), 17, true);
    assert_eq!(plan, vec![SlotCommand::Observe]);
}

#[test]
fn a_lost_life_is_followed_by_warmup_and_fire() {
    let plan = policy(30).follow_up(&outcome(false, false, true), 3, true);
    assert_eq!(
        plan,
        vec![
            SlotCommand::Act(0),
            SlotCommand::Act(0),
            SlotCommand::Act(0),
            SlotCommand::Act(1),
            SlotCommand::Act(2),
            SlotCommand::Observe,
        ]
    );
}

#[test]
fn an_ended_episode_is_reset_before_anything_else() {
    let plan = policy(30).follow_up(&outcome(true, false, false), 2, true);
    assert_eq!(
        plan,
        vec![
            SlotCommand::Reset,
            SlotCommand::Act(0),
            SlotCommand::Act(0),
            SlotCommand::Act(1),
            SlotCommand::Act(2),
            SlotCommand::Observe,
        ]
    );
    let cut = policy(30).follow_up(&outcome(false, true, false), 0, true);
    assert_eq!(cut, vec![SlotCommand::Reset, SlotCommand::Act(1), SlotCommand::Act(2), SlotCommand::Observe]);
}

#[test]
fn without_the_fire_action_there_is_no_fire_sequence() {
    let plan = policy(30).follow_up(&outcome(true, true, true), 1, false);
    assert_eq!(plan, vec![SlotCommand::Reset, SlotCommand::Act(0), SlotCommand::Observe]);
    let none = policy(30).follow_up(&outcome(false, false, true), 0, false);
    assert_eq!(none, vec![SlotCommand::Observe]);
}

#[test]
fn the_policy_names_its_own_actions() {
    let odd = LifecyclePolicy {
        max_noops: 4,
        noop_action: 9,
        fire_action: 7,
        follow_up_action: 5,
        count_warmup_frames: true,
    };
    let plan = odd.follow_up(&outcome(false, false, true), 2, true);
    assert_eq!(
        plan,
        vec![SlotCommand::Act(9), SlotCommand::Act(9), SlotCommand::Act(7), SlotCommand::Act(5), SlotCommand::Observe]
    );
}

#[test]
fn seed_bits_carry_the_sign() {
    assert_eq!(seed_to_bits(0), 0);
    assert_eq!(seed_to_bits(42), 42);
    assert_eq!(seed_to_bits(i32::MAX), 2147483647);
    assert_eq!(seed_to_bits(-1), u64::MAX);
    assert_eq!(seed_to_bits(-42), u64::MAX - 41);
    assert_eq!(seed_to_bits(i32::MIN), 0xFFFF_FFFF_8000_0000);
}

#[test]
fn fire_reset_is_enabled_by_the_action_set() {
    let with_fire = slot_with(vec![0, 1, 3, 4], policy(30), 100, 42);
    assert!(with_fire.fire_reset_enabled());
    assert_eq!(with_fire.index(), 3);
    let without = slot_with(vec![0, 2, 3], policy(30), 100, 42);
    assert!(!without.fire_reset_enabled());
}

#[test]
fn slot_step_reports_the_outcome_and_the_plan() {
    let mut slot = slot_with(vec![0, 1], policy(0), 100, 42);
    slot.reset(3);
    let turn = slot.step(answer(5, false, 3)).unwrap();
    assert_eq!(turn.outcome, StepOutcome { reward: 5, terminal: false, truncated: false, life_lost: false });
    assert_eq!(turn.noops, 0);
    assert_eq!(turn.plan, vec![SlotCommand::Observe]);
    let turn = slot.step(answer(0, false, 2)).unwrap();
    assert_eq!(turn.outcome, StepOutcome { reward: 0, terminal: false, truncated: false, life_lost: true });
    assert_eq!(turn.plan, vec![SlotCommand::Act(1), SlotCommand::Act(2), SlotCommand::Observe]);
    let turn = slot.step(answer(1, true, 0)).unwrap();
    assert_eq!(turn.outcome, StepOutcome { reward: 1, terminal: true, truncated: false, life_lost: true });
    assert_eq!(turn.plan, vec![SlotCommand::Reset, SlotCommand::Act(1), SlotCommand::Act(2), SlotCommand::Observe]);
    assert_eq!(slot.tracker().frame_count(), 3);
}

#[test]
fn warmup_numbers_stay_within_the_policy() {
    let mut slot = slot_with(vec![0], policy(7), 1_000_000, 42);
    slot.reset(1_000_000);
    let mut lives = 1_000_000;
    let mut drawn = Vec::new();
    for _ in 0..400 {
        lives -= 1;
        let turn = slot.step(answer(0, false, lives)).unwrap();
        assert!(turn.noops <= 7);
        assert_eq!(turn.plan.len(), turn.noops as usize + 1);
        drawn.push(turn.noops);
    }
    for wanted in 0..=7u32 {
        assert!(drawn.contains(&wanted));
    }
}

#[test]
fn same_seed_same_warmups() {
    let mut first = slot_with(vec![0], policy(1000), 1_000_000, 42);
    let mut second = slot_with(vec![0], policy(1000), 1_000_000, 42);
    let mut third = slot_with(vec![0], policy(1000), 1_000_000, 43);
    first.reset(100);
    second.reset(100);
    third.reset(100);
    let mut one = Vec::new();
    let mut two = Vec::new();
    let mut three = Vec::new();
    for lives in (0..100).rev() {
        one.push(first.step(answer(0, false, lives)).unwrap().noops);
        two.push(second.step(answer(0, false, lives)).unwrap().noops);
        three.push(third.step(answer(0, false, lives)).unwrap().noops);
    }
    assert_eq!(one, two);
    assert_ne!(one, three);
}

#[test]
fn no_number_is_drawn_without_a_boundary() {
    let mut quiet = slot_with(vec![0], policy(1000), 1_000_000, 42);
    let mut fresh = slot_with(vec![0], policy(1000), 1_000_000, 42);
    quiet.reset(5);
    fresh.reset(5);
    for _ in 0..20 {
        let turn = quiet.step(answer(1, false, 5)).unwrap();
        assert_eq!(turn.noops, 0);
    }
    let after_quiet = quiet.step(answer(0, false, 4)).unwrap().noops;
    let at_once = fresh.step(answer(0, false, 4)).unwrap().noops;
    assert_eq!(after_quiet, at_once);
}

#[test]
fn a_reward_the_score_cannot_hold_is_a_fault() {
    let mut slot = slot_with(vec![0, 1], policy(0), 100, 42);
    slot.reset(3);
    slot.step(answer(i32::MAX, false, 3)).unwrap();
    let refused = slot.step(answer(1, false, 2));
    assert_eq!(refused.err(), Some(BatchError::SlotFault { slot_index: 3 }));
    assert_eq!(slot.tracker().frame_count(), 1);
    assert_eq!(slot.tracker().lives(), 3);
    let refused = slot.absorb(SlotCommand::Act(0), answer(1, false, 2));
    assert_eq!(refused, Err(BatchError::SlotFault { slot_index: 3 }));
    assert_eq!(slot.tracker().lives(), 3);
    assert_eq!(slot.absorb(SlotCommand::Reset, answer(1, false, 9)), Ok(()));
    assert_eq!(slot.tracker().lives(), 9);
    assert_eq!(slot.absorb(SlotCommand::Act(0), answer(1, false, 8)), Ok(()));
    assert_eq!(slot.tracker().lives(), 8);
}

#[test]
fn absorbed_warmup_counts_frames_only_if_the_policy_says_so() {
    let mut uncounted = slot_with(vec![0], policy(0), 100, 1);
    uncounted.reset(3);
    uncounted.absorb(SlotCommand::Act(0), answer(2, false, 3)).unwrap();
    assert_eq!(uncounted.tracker().frame_count(), 0);
    let counting = LifecyclePolicy { count_warmup_frames: true, ..policy(0) };
    let mut counted = slot_with(vec![0], counting, 100, 1);
    counted.reset(3);
    counted.absorb(SlotCommand::Act(0), answer(2, false, 3)).unwrap();
    assert_eq!(counted.tracker().frame_count(), 1);
    counted.absorb(SlotCommand::Observe, answer(2, false, 1)).unwrap();
    assert_eq!(counted.tracker().frame_count(), 1);
    assert_eq!(counted.tracker().lives(), 3);
}

#[test]
fn report_downsamples_the_screen() {
    let slot = slot_with(vec![0], policy(0), 100, 1);
    let screen: Vec<u8> = (0..16).collect();
    let report = slot.report(StepOutcome { reward: 4, terminal: true, truncated: false, life_lost: true }, &screen);
    assert_eq!(report.slot_index, 3);
    let observed = report.result.unwrap();
    assert_eq!(observed.observation, vec![0, 2, 8, 10]);
    assert_eq!(observed.reward, 4);
    assert!(observed.terminal && !observed.truncated && observed.life_lost);
}

#[test]
fn a_screen_of_the_wrong_size_is_a_fault() {
    let slot = slot_with(vec![0], policy(0), 100, 1);
    let report = slot.report(StepOutcome::zero(), &vec![0u8; 15]);
    assert_eq!(report.slot_index, 3);
    assert_eq!(report.result.err(), Some(BatchError::SlotFault { slot_index: 3 }));
    let report = slot.initial_report(&vec![0u8; 17]);
    assert!(report.is_fault());
    let report = slot.fault();
    assert_eq!(report.result.err(), Some(BatchError::SlotFault { slot_index: 3 }));
}

#[test]
fn initial_report_is_zeroed() {
    let slot = slot_with(vec![0], policy(0), 100, 1);
    let report = slot.initial_report(&vec![9u8; 16]);
    let observed = report.result.unwrap();
    assert_eq!(observed.observation, vec![9, 9, 9, 9]);
    assert_eq!(observed.reward, 0);
    assert!(!observed.terminal && !observed.truncated && !observed.life_lost);
}
