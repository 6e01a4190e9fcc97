use ale_env::atari::Emulated;
use ale_env::error::BatchError;
use ale_env::lifecycle::LifecyclePolicy;
use ale_env::lifecycle::SlotCommand;
use ale_env::report::StepReport;
use ale_env::report::StepRequest;
use ale_env::slot::EnvironmentSlot;
use ale_env::vec_atari::check_seeds_fit;
use ale_env::vec_atari::SlotConfig;
use ale_env::{Atari, BundledRom, VecAtari};
use rand::rngs::StdRng;
use rand::seq::SliceRandom;
use rand::SeedableRng;
use std::sync::mpsc;
use std::sync::{Arc, Mutex};

const HEIGHT: usize = 6;
const WIDTH: usize = 4;

/// A stand-in for the emulator: a life is lost every `frames_per_life`
/// frames, whatever the action; the fire action pays one point. The screen
/// shows how many frames have passed since the last reset.
struct ScriptedGame {
    initial_lives: i32,
    frames_per_life: u32,
    lives: i32,
    frame_in_life: u32,
    frames_since_reset: u32,
    closed: bool,
}

impl ScriptedGame {
    fn new(initial_lives: i32, frames_per_life: u32) -> ScriptedGame {
        ScriptedGame {
            initial_lives,
            frames_per_life,
            lives: 0,
            frame_in_life: 0,
            frames_since_reset: 0,
            closed: false,
        }
    }

    fn action_set(&self) -> Vec<i32> {
        vec![0, 1, 3, 4]
    }

    fn reset(&mut self) -> i32 {
        self.lives = self.initial_lives;
        self.frame_in_life = 0;
        self.frames_since_reset = 0;
        self.lives
    }

    fn act(&mut self, action: i32) -> Option<Emulated> {
        if self.closed || action < 0 || action > 17 {
            return None;
        }
        self.frames_since_reset += 1;
        if self.lives > 0 {
            self.frame_in_life += 1;
            if self.frame_in_life == self.frames_per_life {
                self.lives -= 1;
                self.frame_in_life = 0;
            }
        }
        let reward = if action == 1 { 1 } else { 0 };
        Some(Emulated { reward, game_over: self.lives == 0, lives: self.lives })
    }

    fn screen(&self) -> Vec<u8> {
        vec![(self.frames_since_reset % 251) as u8; HEIGHT * WIDTH]
    }
}

struct Driven {
    game: ScriptedGame,
    slot: EnvironmentSlot,
}

fn policy(max_noops: u32) -> LifecyclePolicy {
    LifecyclePolicy {
        max_noops,
        noop_action: 0,
        fire_action: 1,
        follow_up_action: 2,
        count_warmup_frames: false,
    }
}

fn driven(config: &SlotConfig, policy: LifecyclePolicy, lives: i32, frames_per_life: u32) -> Driven {
    let game = ScriptedGame::new(lives, frames_per_life);
    let tracker = Atari::new(game.action_set(), (HEIGHT, WIDTH), config.max_frames, config.gray_scale);
    let slot = EnvironmentSlot::new(config.slot_index, tracker, policy, 2, config.seed);
    Driven { game, slot }
}

fn reset_slot(env: &mut Driven) -> StepReport {
    let lives = env.game.reset();
    env.slot.reset(lives);
    env.slot.initial_report(&env.game.screen())
}

fn step_slot(env: &mut Driven, action: i32) -> StepReport {
    let answer = match env.game.act(action) {
        Some(answer) => answer,
        None => return env.slot.fault(),
    };
    let turn = match env.slot.step(answer) {
        Ok(turn) => turn,
        Err(_) => return env.slot.fault(),
    };
    for command in turn.plan.iter() {
        match command {
            SlotCommand::Reset => {
                let lives = env.game.reset();
                let told = Emulated { reward: 0, game_over: false, lives };
                env.slot.absorb(SlotCommand::Reset, told).unwrap();
            }
            SlotCommand::Act(action) => {
                let answer = match env.game.act(*action) {
                    Some(answer) => answer,
                    None => return env.slot.fault(),
                };
                if env.slot.absorb(*command, answer).is_err() {
                    return env.slot.fault();
                }
            }
            SlotCommand::Observe => {}
        }
    }
    env.slot.report(turn.outcome, &env.game.screen())
}

struct Batch {
    engine: VecAtari,
    envs: Vec<Driven>,
}

fn batch(num_envs: usize, max_frames: u32, seed: i32, policy: LifecyclePolicy, lives: i32, frames_per_life: u32) -> Batch {
    batch_on(num_envs, num_envs, max_frames, seed, policy, lives, frames_per_life)
}

fn batch_on(
    workers: usize,
    num_envs: usize,
    max_frames: u32,
    seed: i32,
    policy: LifecyclePolicy,
    lives: i32,
    frames_per_life: u32,
) -> Batch {
    assert!(num_envs > 0 && workers > 0);
    assert!(BundledRom::lookup("breakout").is_some());
    assert!(check_seeds_fit(seed, num_envs));
    let action_space = ScriptedGame::new(lives, frames_per_life).action_set();
    let engine = VecAtari::with_workers(num_envs, workers, "breakout", max_frames, true, seed, action_space);
    let envs = (0..num_envs).map(|i| driven(&engine.slot_config(i), policy, lives, frames_per_life)).collect();
    Batch { engine, envs }
}

impl Batch {
    fn reset(&mut self) -> Vec<StepReport> {
        assert!(!self.engine.round_open());
        self.engine.reset().unwrap();
        for env in self.envs.iter_mut().rev() {
            assert!(self.engine.taken() < self.engine.num_envs());
            assert!(self.engine.accept(reset_slot(env)).is_none());
        }
        self.engine.gather(None).unwrap()
    }

    fn step(&mut self, actions: Vec<i32>) -> Result<Vec<StepReport>, BatchError> {
        assert!(!self.engine.round_open());
        let requests = self.engine.step(actions)?;
        for request in requests.iter().rev() {
            let report = step_slot(&mut self.envs[request.slot_index], request.action);
            assert!(self.engine.taken() < self.engine.num_envs());
            assert!(self.engine.accept(report).is_none());
        }
        self.engine.gather(None)
    }
}

#[test]
fn test_atari() {
    let seed = 42;
    let steps = 10000;
    let mut game = ScriptedGame::new(5, 7);
    assert_eq!(BundledRom::name2rom("breakout").filename(), "breakout.bin");
    let mut env = Atari::new(game.action_set(), (HEIGHT, WIDTH), 100, true);
    let mut rng = StdRng::seed_from_u64(seed as u64);

    let action_set = env.get_action_set();
    let mut total_reward = 0;
    let mut since_reset = 0;
    env.reset(game.reset());
    for _ in 0..steps {
        let action = action_set.choose(&mut rng).expect("Random action failed");
        let answer = game.act(*action).unwrap();
        assert!(env.can_take(answer.reward));
        let (reward, terminal, _truncation, _life_loss) = env.step(answer);
        total_reward += reward;
        since_reset += reward;
        assert_eq!(env.get_score(), since_reset);
        if terminal {
            env.reset(game.reset());
            since_reset = 0;
        }
    }
    println!("Single env: total reward {}", total_reward);
    assert!(total_reward > 0);
    assert!(total_reward < steps);
}

#[test]
fn test_vec_atari() {
    let num_envs = 16;
    let seed = 42;
    let steps = 10000;
    let mut envs = batch(num_envs, 108_000, seed, policy(30), 5, 40);
    let mut result = vec![];
    result.push(envs.reset());
    for _ in 0..steps {
        let actions = (0..num_envs)
            .map(|_| *envs.engine.action_space().choose(&mut rand::thread_rng()).unwrap())
            .collect();
        result.push(envs.step(actions).unwrap());
    }
    assert_eq!(result.len(), steps + 1);
    for round in result.iter() {
        assert_eq!(round.len(), num_envs);
        for (i, report) in round.iter().enumerate() {
            assert_eq!(report.slot_index, i);
            assert!(!report.is_fault());
        }
    }
}

#[test]
fn slot_configs_derive_the_seeds() {
    let engine = VecAtari::new(4, "pong", 1000, false, 42, vec![0, 1]);
    assert_eq!(engine.num_envs(), 4);
    assert_eq!(engine.action_space(), &vec![0, 1]);
    for i in 0..4usize {
        assert_eq!(
            engine.slot_config(i),
            SlotConfig { slot_index: i, rom: BundledRom::Pong, max_frames: 1000, gray_scale: false, seed: 42 + i as i32 }
        );
    }
    let low = VecAtari::new(3, "pong", 1000, false, -1, vec![0]);
    assert_eq!(low.slot_config(0).seed, -1);
    assert_eq!(low.slot_config(1).seed, 0);
    assert_eq!(low.slot_config(2).seed, 1);
}

#[test]
fn seeds_have_to_stay_in_range() {
    assert!(check_seeds_fit(42, 16));
    assert!(check_seeds_fit(i32::MAX, 1));
    assert!(!check_seeds_fit(i32::MAX, 2));
    assert!(check_seeds_fit(i32::MAX - 3, 4));
    assert!(!check_seeds_fit(i32::MAX - 3, 5));
    assert!(check_seeds_fit(i32::MIN, 1));
    assert!(check_seeds_fit(-1, usize::MAX.min(1 << 31)));
    assert!(check_seeds_fit(0, 0));
    assert!(!check_seeds_fit(0, usize::MAX));
}

#[test]
fn step_hands_out_one_request_per_slot() {
    let mut engine = VecAtari::new(3, "breakout", 100, true, 0, vec![0, 1, 3, 4]);
    let requests = engine.step(vec![4, 0, 3]).unwrap();
    assert_eq!(
        requests,
        vec![
            StepRequest { slot_index: 0, action: 4 },
            StepRequest { slot_index: 1, action: 0 },
            StepRequest { slot_index: 2, action: 3 },
        ]
    );
    assert!(engine.round_open());
}

#[test]
fn a_batch_of_the_wrong_length_is_refused() {
    let mut engine = VecAtari::new(3, "breakout", 100, true, 0, vec![0, 1, 3, 4]);
    assert_eq!(engine.step(vec![0, 1]), Err(BatchError::ShapeMismatch { expected: 3, actual: 2 }));
    assert_eq!(engine.step(vec![0, 1, 3, 4]), Err(BatchError::ShapeMismatch { expected: 3, actual: 4 }));
    assert_eq!(engine.step(vec![]), Err(BatchError::ShapeMismatch { expected: 3, actual: 0 }));
    assert_eq!(engine.step(vec![2, 2]), Err(BatchError::ShapeMismatch { expected: 3, actual: 2 }));
    assert!(!engine.round_open());
    assert!(engine.step(vec![0, 1, 3]).is_ok());
}

#[test]
fn an_action_outside_the_action_space_is_refused() {
    let mut engine = VecAtari::new(3, "breakout", 100, true, 0, vec![0, 1, 3, 4]);
    assert_eq!(engine.step(vec![0, 2, 3]), Err(BatchError::InvalidAction { slot_index: 1, action: 2 }));
    assert_eq!(engine.step(vec![0, 1, -1]), Err(BatchError::InvalidAction { slot_index: 2, action: -1 }));
    assert_eq!(engine.step(vec![9, 2, 7]), Err(BatchError::InvalidAction { slot_index: 0, action: 9 }));
    assert!(!engine.round_open());
    assert!(engine.step(vec![4, 4, 4]).is_ok());
}

#[test]
fn a_closed_engine_opens_no_round() {
    let mut engine = VecAtari::new(2, "breakout", 100, true, 0, vec![0, 1]);
    assert!(!engine.is_closed());
    engine.close();
    assert!(engine.is_closed());
    assert_eq!(engine.step(vec![0, 1]), Err(BatchError::PoolClosed));
    assert_eq!(engine.step(vec![0]), Err(BatchError::PoolClosed));
    assert_eq!(engine.step(vec![5, 5]), Err(BatchError::PoolClosed));
    assert_eq!(engine.reset(), Err(BatchError::PoolClosed));
    assert!(!engine.round_open());
    engine.close();
    assert!(engine.is_closed());
}

#[test]
fn a_round_stays_open_until_it_is_gathered() {
    let mut engine = VecAtari::new(2, "breakout", 100, true, 0, vec![0, 1]);
    assert_eq!(engine.reset(), Ok(()));
    assert!(engine.round_open());
    assert_eq!(engine.taken(), 0);
    assert!(engine.accept(StepReport::initial(1, vec![1])).is_none());
    assert!(engine.round_open());
    assert_eq!(engine.taken(), 1);
    assert!(engine.accept(StepReport::initial(0, vec![0])).is_none());
    assert_eq!(engine.taken(), 2);
    assert!(engine.round_open());
    let batch = engine.gather(None).unwrap();
    assert!(!engine.round_open());
    assert_eq!(engine.taken(), 0);
    assert_eq!(batch[0].result.as_ref().unwrap().observation, vec![0]);
    assert_eq!(batch[1].result.as_ref().unwrap().observation, vec![1]);
}

#[test]
fn a_wait_that_runs_out_leaves_the_round_open() {
    let mut engine = VecAtari::new(3, "breakout", 100, true, 0, vec![0, 1]);
    engine.step(vec![0, 1, 0]).unwrap();
    assert_eq!(engine.gather(Some(5)).err(), Some(BatchError::Timeout));
    assert!(engine.round_open());
    assert_eq!(engine.taken(), 0);
    engine.sender().send(StepReport::initial(2, vec![2])).unwrap();
    assert_eq!(engine.gather(Some(5)).err(), Some(BatchError::Timeout));
    assert!(engine.round_open());
    assert_eq!(engine.taken(), 1);
    let sender = engine.sender();
    sender.send(StepReport::initial(0, vec![0])).unwrap();
    sender.send(StepReport::fault(1)).unwrap();
    let batch = engine.gather(Some(5)).unwrap();
    assert!(!engine.round_open());
    assert_eq!(batch.len(), 3);
    assert_eq!(batch[0].result.as_ref().unwrap().observation, vec![0]);
    assert!(batch[1].is_fault());
    assert_eq!(batch[2].result.as_ref().unwrap().observation, vec![2]);
    assert!(engine.step(vec![0, 0, 0]).is_ok());
}

#[test]
fn gather_takes_exactly_one_report_per_slot_from_the_channel() {
    let mut engine = VecAtari::new(2, "breakout", 100, true, 0, vec![0, 1]);
    let sender = engine.sender();
    engine.reset().unwrap();
    sender.send(StepReport::initial(1, vec![11])).unwrap();
    sender.send(StepReport::initial(0, vec![10])).unwrap();
    sender.send(StepReport::initial(1, vec![21])).unwrap();
    sender.send(StepReport::initial(0, vec![20])).unwrap();
    let first = engine.gather(None).unwrap();
    assert_eq!(first[0].result.as_ref().unwrap().observation, vec![10]);
    assert_eq!(first[1].result.as_ref().unwrap().observation, vec![11]);
    engine.reset().unwrap();
    let second = engine.gather(None).unwrap();
    assert_eq!(second[0].result.as_ref().unwrap().observation, vec![20]);
    assert_eq!(second[1].result.as_ref().unwrap().observation, vec![21]);
}

#[test]
fn a_slot_that_reports_twice_leaves_the_other_faulted() {
    let mut engine = VecAtari::new(2, "breakout", 100, true, 0, vec![0, 1]);
    engine.reset().unwrap();
    assert!(engine.accept(StepReport::initial(1, vec![1])).is_none());
    let back = engine.accept(StepReport::initial(1, vec![2])).unwrap();
    assert_eq!(back.result.unwrap().observation, vec![2]);
    assert_eq!(engine.taken(), 2);
    let batch = engine.gather(None).unwrap();
    assert_eq!(batch.len(), 2);
    assert_eq!(batch[0].result.as_ref().err(), Some(&BatchError::SlotFault { slot_index: 0 }));
    assert_eq!(batch[1].result.as_ref().unwrap().observation, vec![1]);
    engine.step(vec![0, 0]).unwrap();
    let outside = engine.accept(StepReport::initial(2, vec![3])).unwrap();
    assert_eq!(outside.slot_index, 2);
    assert_eq!(engine.taken(), 1);
}

#[test]
fn every_round_has_one_report_per_slot_in_slot_order() {
    for num_envs in 1..=6usize {
        let mut envs = batch(num_envs, 60, 7, policy(4), 3, 5);
        let first = envs.reset();
        assert_eq!(first.len(), num_envs);
        for round in 0..200 {
            let actions = (0..num_envs).map(|i| [0, 1, 3, 4][(i + round) % 4]).collect();
            let reports = envs.step(actions).unwrap();
            assert_eq!(reports.len(), num_envs);
            for (i, report) in reports.iter().enumerate() {
                assert_eq!(report.slot_index, i);
            }
        }
    }
}

#[test]
fn reset_round_reports_first_observations() {
    let mut envs = batch(3, 100, 42, policy(30), 5, 10);
    let reports = envs.reset();
    assert_eq!(reports.len(), 3);
    for (i, report) in reports.iter().enumerate() {
        assert_eq!(report.slot_index, i);
        let observed = report.result.as_ref().unwrap();
        assert_eq!(observed.observation, vec![0u8; 3 * 2]);
        assert_eq!(observed.reward, 0);
        assert!(!observed.terminal && !observed.truncated && !observed.life_lost);
    }
    for env in envs.envs.iter() {
        assert_eq!(env.slot.tracker().lives(), 5);
    }
}

fn flags_of(rounds: &Vec<Vec<StepReport>>, slot: usize) -> Vec<(i32, bool, bool)> {
    rounds
        .iter()
        .map(|round| {
            let observed = round[slot].result.as_ref().unwrap();
            (observed.reward, observed.terminal, observed.truncated)
        })
        .collect()
}

#[test]
fn same_construction_same_actions_same_flags() {
    let mut first = batch(4, 90, 42, policy(30), 3, 11);
    let mut second = batch(4, 90, 42, policy(30), 3, 11);
    first.reset();
    second.reset();
    let mut one = Vec::new();
    let mut two = Vec::new();
    for round in 0..500usize {
        let actions: Vec<i32> = (0..4).map(|i| [0, 1, 3, 4][(i * 3 + round) % 4]).collect();
        one.push(first.step(actions.clone()).unwrap());
        two.push(second.step(actions).unwrap());
    }
    for slot in 0..4 {
        let flags = flags_of(&one, slot);
        assert_eq!(flags, flags_of(&two, slot));
        assert!(flags.iter().any(|f| f.1));
        assert!(flags.iter().any(|f| f.0 == 1));
    }
}

#[test]
fn a_terminal_round_shows_the_frame_after_the_reset() {
    // no warmup and no fire sequence: the game offers no fire action here
    let quiet = LifecyclePolicy { fire_action: 99, ..policy(0) };
    let mut envs = batch(2, 1000, 42, quiet, 2, 5);
    envs.reset();
    let mut terminals = 0;
    for round in 1..=40 {
        let reports = envs.step(vec![0, 0]).unwrap();
        for (i, report) in reports.iter().enumerate() {
            let observed = report.result.as_ref().unwrap();
            if observed.terminal {
                terminals += 1;
                assert_eq!(round % 10, 0);
                assert_eq!(observed.observation, vec![0u8; 3 * 2]);
                assert_eq!(envs.envs[i].slot.tracker().frame_count(), 0);
                assert_eq!(envs.envs[i].slot.tracker().lives(), 2);
                assert_eq!(envs.envs[i].slot.tracker().lives(), envs.envs[i].game.lives);
            } else {
                assert_eq!(observed.observation, vec![(round % 10) as u8; 3 * 2]);
                assert_eq!(envs.envs[i].slot.tracker().frame_count(), (round % 10) as u32);
            }
        }
    }
    assert_eq!(terminals, 8);
}

#[test]
fn a_truncated_round_starts_a_fresh_episode_too() {
    let quiet = LifecyclePolicy { fire_action: 99, ..policy(0) };
    let mut envs = batch(1, 7, 42, quiet, 3, 100);
    envs.reset();
    for round in 1..=21 {
        let reports = envs.step(vec![1]).unwrap();
        let observed = reports[0].result.as_ref().unwrap();
        assert_eq!(observed.truncated, round % 7 == 0);
        assert!(!observed.terminal);
        assert_eq!(observed.observation, vec![(round % 7) as u8; 3 * 2]);
        let tracker = envs.envs[0].slot.tracker();
        assert_eq!(tracker.frame_count(), (round % 7) as u32);
    }
}

#[test]
fn warmup_runs_between_rounds_unseen() {
    let mut envs = batch(1, 1000, 42, policy(0), 2, 5);
    envs.reset();
    for round in 1..=4 {
        let reports = envs.step(vec![0]).unwrap();
        assert_eq!(reports[0].result.as_ref().unwrap().observation, vec![round as u8; 6]);
    }
    // the fifth frame costs a life: fire and its follow-up run before the observation
    let reports = envs.step(vec![0]).unwrap();
    let observed = reports[0].result.as_ref().unwrap();
    assert!(observed.life_lost && !observed.terminal);
    assert_eq!(observed.reward, 0);
    assert_eq!(observed.observation, vec![7u8; 6]);
    assert_eq!(envs.envs[0].slot.tracker().frame_count(), 5);
    assert_eq!(envs.envs[0].slot.tracker().score(), 1);
}

#[test]
fn life_losses_before_the_first_terminal() {
    let num_envs = 4;
    let initial_lives = 5;
    let mut envs = batch(num_envs, 1_000_000, 42, policy(5), initial_lives, 50);
    envs.reset();
    let mut losses = 0;
    let mut terminal_seen = false;
    for _ in 0..1000 {
        let reports = envs.step(vec![0; num_envs]).unwrap();
        assert_eq!(reports.len(), num_envs);
        if reports.iter().any(|r| r.result.as_ref().unwrap().terminal) {
            terminal_seen = true;
        }
        if !terminal_seen {
            losses += reports.iter().filter(|r| r.result.as_ref().unwrap().life_lost).count();
        }
        for report in reports.iter() {
            assert!(!report.result.as_ref().unwrap().truncated);
        }
    }
    assert!(terminal_seen);
    assert_eq!(losses, num_envs * (initial_lives as usize - 1));
}

#[test]
fn one_failing_simulator_does_not_hold_up_the_round() {
    let mut envs = batch(4, 100, 42, policy(3), 3, 5);
    envs.reset();
    envs.envs[2].game.closed = true;
    for _ in 0..20 {
        let reports = envs.step(vec![0, 1, 3, 4]).unwrap();
        assert_eq!(reports.len(), 4);
        for (i, report) in reports.iter().enumerate() {
            assert_eq!(report.slot_index, i);
            assert_eq!(report.is_fault(), i == 2);
        }
        assert_eq!(reports[2].result.as_ref().err(), Some(&BatchError::SlotFault { slot_index: 2 }));
    }
}

fn threaded_round(envs: &Vec<Arc<Mutex<Driven>>>, engine: &mut VecAtari, actions: Vec<i32>) -> Vec<StepReport> {
    let requests = engine.step(actions).unwrap();
    for request in requests {
        let env = envs[request.slot_index].clone();
        let sender = engine.sender();
        engine.pool().execute(move || {
            let mut env = env.lock().unwrap();
            sender.send(step_slot(&mut env, request.action)).unwrap();
        });
    }
    engine.gather(None).unwrap()
}

#[test]
fn a_small_pool_serves_a_large_batch() {
    let num_envs = 8;
    for workers in [1usize, 3, 8] {
        let built = batch_on(workers, num_envs, 50, 42, policy(6), 3, 9);
        let mut engine = built.engine;
        assert_eq!(engine.workers(), workers);
        assert_eq!(engine.pool().max_count(), workers);
        let envs: Vec<Arc<Mutex<Driven>>> = built.envs.into_iter().map(|env| Arc::new(Mutex::new(env))).collect();
        for env in envs.iter() {
            let mut env = env.lock().unwrap();
            reset_slot(&mut env);
        }
        let mut sequential = batch(num_envs, 50, 42, policy(6), 3, 9);
        sequential.reset();
        for round in 0..100usize {
            let actions: Vec<i32> = (0..num_envs).map(|i| [0, 1, 3, 4][(i + round) % 4]).collect();
            let reports = threaded_round(&envs, &mut engine, actions.clone());
            let expected = sequential.step(actions).unwrap();
            assert_eq!(reports.len(), num_envs);
            for (i, report) in reports.iter().enumerate() {
                assert_eq!(report.slot_index, i);
                let got = report.result.as_ref().unwrap();
                let want = expected[i].result.as_ref().unwrap();
                assert_eq!(got.observation, want.observation);
                assert_eq!(
                    (got.reward, got.terminal, got.truncated, got.life_lost),
                    (want.reward, want.terminal, want.truncated, want.life_lost)
                );
            }
        }
        engine.close();
        assert!(engine.is_closed());
        assert_eq!(engine.pool().active_count(), 0);
        assert_eq!(engine.pool().queued_count(), 0);
    }
}

#[test]
fn close_waits_for_the_pool_to_come_to_rest() {
    let mut engine = VecAtari::with_workers(4, 2, "breakout", 100, true, 0, vec![0, 1]);
    let (sender, receiver) = mpsc::channel();
    for i in 0..6u64 {
        let sender = sender.clone();
        engine.pool().execute(move || {
            // nothing is ever sent on this channel: the wait runs its full time
            let (_quiet, wait) = mpsc::channel::<()>();
            assert!(wait.recv_timeout(std::time::Duration::from_millis(20 * (i + 1))).is_err());
            sender.send(i).unwrap();
        });
    }
    engine.close();
    let done: Vec<u64> = receiver.try_iter().collect();
    assert_eq!(done.len(), 6);
    assert_eq!(engine.step(vec![0, 0, 0, 0]), Err(BatchError::PoolClosed));
}

#[test]
fn an_open_round_can_be_gathered_after_close() {
    let mut engine = VecAtari::with_workers(3, 2, "breakout", 100, true, 0, vec![0, 1]);
    let requests = engine.step(vec![1, 0, 1]).unwrap();
    for request in requests {
        let sender = engine.sender();
        engine.pool().execute(move || {
            sender.send(StepReport::initial(request.slot_index, vec![request.action as u8])).unwrap();
        });
    }
    engine.close();
    assert!(engine.is_closed());
    assert!(engine.round_open());
    let batch = engine.gather(Some(1)).unwrap();
    let seen: Vec<u8> = batch.iter().map(|r| r.result.as_ref().unwrap().observation[0]).collect();
    assert_eq!(seen, vec![1, 0, 1]);
    assert!(!engine.round_open());
    assert_eq!(engine.reset(), Err(BatchError::PoolClosed));
}

#[test]
fn new_engine_has_a_worker_per_slot() {
    let engine = VecAtari::new(5, "breakout", 100, true, 0, vec![0, 1]);
    assert_eq!(engine.workers(), 5);
    assert_eq!(engine.pool().max_count(), 5);
    assert!(!engine.round_open());
    assert!(!engine.is_closed());
}
