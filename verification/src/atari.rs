use vstd::prelude::*;

verus! {

/// What the emulator says once it has carried out one action: the reward it
/// paid, whether the game is over, and how many lives are left.
#[derive(Clone, Copy, Debug, PartialEq, Eq, Structural)]
pub struct Emulated {
    pub reward: i32,
    pub game_over: bool,
    pub lives: i32,
}

/// Bytes per pixel of an observation: one for grayscale, three for packed RGB.
pub open spec fn channels(gray_scale: bool) -> int {
    if gray_scale {
        1
    } else {
        3
    }
}

/// Bytes in one observation of a screen of `height` rows and `width` columns.
pub open spec fn frame_bytes(height: int, width: int, gray_scale: bool) -> int {
    height * width * channels(gray_scale)
}

/// The episode bookkeeping of one environment, as mathematical values.
pub struct AtariView {
    pub action_set: Seq<i32>,
    pub screen_size: (usize, usize),
    pub score: i32,
    pub lives: i32,
    pub frame_count: u32,
    pub max_frames: u32,
    pub gray_scale: bool,
}

impl AtariView {
    /// The bookkeeping right after the emulator was reset and reports `lives`.
    pub open spec fn reset(self, lives: i32) -> AtariView {
        AtariView { score: 0, lives, frame_count: 0, ..self }
    }

    /// The frame counter after one more frame; it stops at the largest `u32`.
    pub open spec fn next_frame_count(self) -> u32 {
        if self.frame_count < u32::MAX {
            (self.frame_count + 1) as u32
        } else {
            u32::MAX
        }
    }

    /// Whether the score can take `reward` without leaving `i32`.
    pub open spec fn can_take(self, reward: i32) -> bool {
        i32::MIN <= self.score + reward <= i32::MAX
    }

    /// The bookkeeping after the emulator carried out one action; `counted`
    /// says whether that action's frame goes against the episode's budget.
    pub open spec fn absorb(self, emulated: Emulated, counted: bool) -> AtariView {
        AtariView {
            score: (self.score + emulated.reward) as i32,
            lives: emulated.lives,
            frame_count: if counted {
                self.next_frame_count()
            } else {
                self.frame_count
            },
            ..self
        }
    }

    /// The bookkeeping after one counted action.
    pub open spec fn step(self, emulated: Emulated) -> AtariView {
        self.absorb(emulated, true)
    }

    /// What a step reports: reward, terminal, truncation, life loss.
    pub open spec fn step_result(self, emulated: Emulated) -> (i32, bool, bool, bool) {
        (
            emulated.reward,
            emulated.game_over,
            self.next_frame_count() >= self.max_frames,
            emulated.lives < self.lives,
        )
    }
}

/// Whether the size of one observation of a screen of `screen_size` (height,
/// width) can be held in a `usize`.
pub fn frame_fits(screen_size: (usize, usize), gray_scale: bool) -> (fits: bool)
    ensures
        fits == (frame_bytes(screen_size.0 as int, screen_size.1 as int, gray_scale) <= usize::MAX),
{
    let per_pixel: usize = if gray_scale {
        1
    } else {
        3
    };
    if screen_size.0 == 0 || screen_size.1 == 0 {
        assert(screen_size.0 * screen_size.1 * per_pixel == 0) by (nonlinear_arith)
            requires
                screen_size.0 == 0 || screen_size.1 == 0,
        ;
        return true;
    }
    match screen_size.0.checked_mul(screen_size.1) {
        Some(pixels) => pixels.checked_mul(per_pixel).is_some(),
        None => {
            assert(screen_size.0 * screen_size.1 * per_pixel > usize::MAX) by (nonlinear_arith)
                requires
                    screen_size.0 * screen_size.1 > usize::MAX,
                    per_pixel >= 1,
            ;
            false
        },
    }
}

/// Whether `action` occurs in `actions`.
pub fn contains_action(actions: &Vec<i32>, action: i32) -> (found: bool)
    ensures
        found == actions@.contains(action),
{
    let mut i: usize = 0;
    while i < actions.len()
        invariant
            0 <= i <= actions.len(),
            forall|j: int| 0 <= j < i ==> actions@[j] != action,
        decreases actions.len() - i,
    {
        if actions[i] == action {
            return true;
        }
        i = i + 1;
    }
    false
}

/// One environment's episode bookkeeping: what has to be remembered between
/// two actions of the emulator to tell score, truncation and life loss.
pub struct Atari {
    action_set: Vec<i32>,
    screen_size: (usize, usize),
    frame_len: usize,
    score: i32,
    lives: i32,
    frame_count: u32,
    max_frames: u32,
    gray_scale: bool,
}

impl View for Atari {
    type V = AtariView;

    closed spec fn view(&self) -> AtariView {
        AtariView {
            action_set: self.action_set@,
            screen_size: self.screen_size,
            score: self.score,
            lives: self.lives,
            frame_count: self.frame_count,
            max_frames: self.max_frames,
            gray_scale: self.gray_scale,
        }
    }
}

impl Atari {
    /// The stored observation size agrees with the screen's dimensions.
    pub closed spec fn wf(&self) -> bool {
        self.frame_len == frame_bytes(
            self.screen_size.0 as int,
            self.screen_size.1 as int,
            self.gray_scale,
        )
    }

    /// Bookkeeping for an emulator that offers `action_set` and draws a screen
    /// of `screen_size` (height, width). An episode is cut off at `max_frames`.
    pub fn new(
        action_set: Vec<i32>,
        screen_size: (usize, usize),
        max_frames: u32,
        gray_scale: bool,
    ) -> (env: Atari)
        requires
            frame_bytes(screen_size.0 as int, screen_size.1 as int, gray_scale) <= usize::MAX,
        ensures
            env.wf(),
            env@ == (AtariView {
                action_set: action_set@,
                screen_size,
                score: 0,
                lives: 0,
                frame_count: 0,
                max_frames,
                gray_scale,
            }),
    {
        let per_pixel: usize = if gray_scale {
            1
        } else {
            3
        };
        assert(screen_size.0 * screen_size.1 <= usize::MAX && screen_size.0 * screen_size.1
            * per_pixel <= usize::MAX) by (nonlinear_arith)
            requires
                screen_size.0 * screen_size.1 * per_pixel <= usize::MAX,
                1 <= per_pixel,
        ;
        let frame_len = screen_size.0 * screen_size.1 * per_pixel;
        Atari {
            action_set,
            screen_size,
            frame_len,
            score: 0,
            lives: 0,
            frame_count: 0,
            max_frames,
            gray_scale,
        }
    }

    /// Starts a new episode; `lives` is what the emulator reports after its
    /// own reset.
    pub fn reset(&mut self, lives: i32)
        requires
            old(self).wf(),
        ensures
            final(self).wf(),
            final(self)@ == old(self)@.reset(lives),
    {
        self.lives = lives;
        self.score = 0;
        self.frame_count = 0;
    }

    /// Takes in one action's result without reporting on it. With `counted`
    /// the frame goes against the episode's budget.
    pub fn absorb(&mut self, emulated: Emulated, counted: bool)
        requires
            old(self).wf(),
            old(self)@.can_take(emulated.reward),
        ensures
            final(self).wf(),
            final(self)@ == old(self)@.absorb(emulated, counted),
    {
        if counted && self.frame_count < u32::MAX {
            self.frame_count = self.frame_count + 1;
        }
        self.lives = emulated.lives;
        self.score = self.score + emulated.reward;
    }

    /// Takes in the result of the caller's action and returns the step
    /// information: (reward, terminal, truncation, life loss).
    pub fn step(&mut self, emulated: Emulated) -> (info: (i32, bool, bool, bool))
        requires
            old(self).wf(),
            old(self)@.can_take(emulated.reward),
        ensures
            final(self).wf(),
            final(self)@ == old(self)@.step(emulated),
            info == old(self)@.step_result(emulated),
    {
        let life_loss = emulated.lives < self.lives;
        self.absorb(emulated, true);
        let truncation = self.frame_count >= self.max_frames;
        (emulated.reward, emulated.game_over, truncation, life_loss)
    }

    /// Whether `reward` can be added to the score without leaving `i32`.
    pub fn can_take(&self, reward: i32) -> (ok: bool)
        ensures
            ok == self@.can_take(reward),
    {
        self.score.checked_add(reward).is_some()
    }

    /// Returns (height, width) of the screen.
    pub fn screen_dim(&mut self) -> (dim: (usize, usize))
        ensures
            dim == old(self)@.screen_size,
            *final(self) == *old(self),
    {
        self.screen_size
    }

    pub fn get_action_set(&mut self) -> (actions: Vec<i32>)
        ensures
            actions@ == old(self)@.action_set,
            *final(self) == *old(self),
    {
        self.action_set.clone()
    }

    pub fn get_score(&mut self) -> (score: i32)
        ensures
            score == old(self)@.score,
            *final(self) == *old(self),
    {
        self.score
    }

    /// Whether `action` is one of the emulator's actions.
    pub fn offers(&self, action: i32) -> (found: bool)
        ensures
            found == self@.action_set.contains(action),
    {
        contains_action(&self.action_set, action)
    }

    /// (height, width) of the screen.
    pub fn dim(&self) -> (dim: (usize, usize))
        ensures
            dim == self@.screen_size,
    {
        self.screen_size
    }

    /// The rewards of the running episode, summed.
    pub fn score(&self) -> (score: i32)
        ensures
            score == self@.score,
    {
        self.score
    }

    /// Lives left, as the emulator last reported them.
    pub fn lives(&self) -> (lives: i32)
        ensures
            lives == self@.lives,
    {
        self.lives
    }

    /// Frames counted against the running episode's budget.
    pub fn frame_count(&self) -> (frames: u32)
        ensures
            frames == self@.frame_count,
    {
        self.frame_count
    }

    /// Whether observations hold one byte per pixel rather than three.
    pub fn gray_scale(&self) -> (gray: bool)
        ensures
            gray == self@.gray_scale,
    {
        self.gray_scale
    }

    /// Bytes in one observation of this environment's screen.
    pub fn frame_len(&self) -> (len: usize)
        requires
            self.wf(),
        ensures
            len == frame_bytes(
                self@.screen_size.0 as int,
                self@.screen_size.1 as int,
                self@.gray_scale,
            ),
    {
        self.frame_len
    }
}

} // verus!
