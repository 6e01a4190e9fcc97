use ale_env::atari::contains_action;
use ale_env::atari::frame_fits;
use ale_env::atari::Emulated;
use ale_env::Atari;

fn answer(reward: i32, game_over: bool, lives: i32) -> Emulated {
    Emulated { reward, game_over, lives }
}

#[test]
fn new_tracker_starts_empty() {
    let mut env = Atari::new(vec![0, 1, 3, 4], (210, 160), 100, true);
    assert_eq!(env.screen_dim(), (210, 160));
    assert_eq!(env.get_action_set(), vec![0, 1, 3, 4]);
    assert_eq!(env.get_score(), 0);
    assert_eq!(env.lives(), 0);
    assert_eq!(env.frame_count(), 0);
    assert!(env.gray_scale());
}

#[test]
fn frame_len_counts_channels() {
    let gray = Atari::new(vec![0], (210, 160), 100, true);
    assert_eq!(gray.frame_len(), 210 * 160);
    let rgb = Atari::new(vec![0], (210, 160), 100, false);
    assert_eq!(rgb.frame_len(), 210 * 160 * 3);
    let empty = Atari::new(vec![], (0, 160), 100, false);
    assert_eq!(empty.frame_len(), 0);
}

#[test]
fn reset_takes_lives_and_clears_score_and_frames() {
    let mut env = Atari::new(vec![0, 1], (4, 4), 100, true);
    env.reset(5);
    assert_eq!(env.lives(), 5);
    env.step(answer(7, false, 5));
    env.step(answer(3, false, 4));
    assert_eq!(env.get_score(), 10);
    assert_eq!(env.frame_count(), 2);
    assert_eq!(env.lives(), 4);
    env.reset(5);
    assert_eq!(env.get_score(), 0);
    assert_eq!(env.frame_count(), 0);
    assert_eq!(env.lives(), 5);
}

#[test]
fn step_reports_reward_terminal_truncation_life_loss() {
    let mut env = Atari::new(vec![0, 1], (4, 4), 3, true);
    env.reset(3);
    assert_eq!(env.step(answer(1, false, 3)), (1, false, false, false));
    assert_eq!(env.step(answer(0, false, 2)), (0, false, false, true));
    assert_eq!(env.step(answer(-2, false, 2)), (-2, false, true, false));
    assert_eq!(env.step(answer(4, true, 0)), (4, true, true, true));
    assert_eq!(env.get_score(), 3);
    assert_eq!(env.frame_count(), 4);
}

#[test]
fn truncation_starts_exactly_at_the_budget() {
    let mut env = Atari::new(vec![0], (1, 1), 100, true);
    env.reset(1);
    for frame in 1..=150u32 {
        let (_, _, truncation, _) = env.step(answer(0, false, 1));
        assert_eq!(truncation, frame >= 100);
    }
}

#[test]
fn zero_budget_truncates_at_once() {
    let mut env = Atari::new(vec![0], (1, 1), 0, true);
    env.reset(1);
    assert_eq!(env.step(answer(0, false, 1)), (0, false, true, false));
}

#[test]
fn gaining_a_life_is_no_life_loss() {
    let mut env = Atari::new(vec![0], (1, 1), 10, true);
    env.reset(2);
    assert_eq!(env.step(answer(0, false, 3)), (0, false, false, false));
    assert_eq!(env.lives(), 3);
}

#[test]
fn uncounted_actions_leave_the_frame_counter() {
    let mut env = Atari::new(vec![0], (1, 1), 10, true);
    env.reset(3);
    env.absorb(answer(5, false, 2), false);
    assert_eq!(env.frame_count(), 0);
    assert_eq!(env.get_score(), 5);
    assert_eq!(env.lives(), 2);
    env.absorb(answer(1, false, 2), true);
    assert_eq!(env.frame_count(), 1);
    assert_eq!(env.get_score(), 6);
}

#[test]
fn can_take_tells_score_overflow() {
    let mut env = Atari::new(vec![0], (1, 1), 10, true);
    env.reset(1);
    assert!(env.can_take(i32::MAX));
    assert!(env.can_take(i32::MIN));
    env.step(answer(i32::MAX, false, 1));
    assert!(env.can_take(0));
    assert!(env.can_take(-1));
    assert!(!env.can_take(1));
    env.reset(1);
    env.step(answer(-1, false, 1));
    assert!(env.can_take(i32::MIN + 1));
    assert!(!env.can_take(i32::MIN));
}

#[test]
fn offers_and_contains_action() {
    let env = Atari::new(vec![0, 1, 3, 4], (1, 1), 10, true);
    assert!(env.offers(0));
    assert!(env.offers(4));
    assert!(!env.offers(2));
    assert!(!env.offers(-1));
    assert!(contains_action(&vec![5, 6], 6));
    assert!(!contains_action(&vec![], 0));
}

#[test]
fn frame_fits_tells_sizes_that_overflow() {
    assert!(frame_fits((210, 160), true));
    assert!(frame_fits((210, 160), false));
    assert!(frame_fits((0, usize::MAX), false));
    assert!(frame_fits((usize::MAX, 0), false));
    assert!(frame_fits((usize::MAX, 1), true));
    assert!(!frame_fits((usize::MAX, 1), false));
    assert!(!frame_fits((usize::MAX, 2), true));
    assert!(frame_fits((usize::MAX / 3, 1), false));
    assert!(!frame_fits((usize::MAX / 3 + 1, 1), false));
    assert!(!frame_fits((usize::MAX / 2 + 1, 2), true));
}
