use vstd::prelude::*;
use bracket_lib::random::RandomNumberGenerator;
use crate::bird::{gravity_spec, Bird, FLAP_VELOCITY};
use crate::obstacle::{
    gap_size, hits, random_range, Obstacle, BASE_GAP_SIZE, GAP_CENTER_END, GAP_CENTER_MIN,
    SCREEN_HEIGHT,
};

verus! {

/// Width of the screen in cells: a new wall is placed this far ahead of the bird.
pub const SCREEN_WIDTH: i32 = 80;

/// Time between two gravity steps, in microseconds.
pub const FRAME_DURATION_US: u64 = 75_000;

/// Column of a fresh bird.
pub const START_X: i32 = 5;

/// Row of a fresh bird.
pub const START_Y: i32 = 25;

/// What the game shows and how it reacts to keys.
#[derive(Clone, Copy, Debug, PartialEq, Eq, Structural)]
pub enum GameMode {
    Menu,
    Playing,
    End,
}

/// The keys the game reacts to: `P` plays, `Q` quits, `Space` flaps.
#[derive(Clone, Copy, Debug, PartialEq, Eq, Structural)]
pub enum Key {
    P,
    Q,
    Space,
    Other,
}

/// The whole game: its mode, the bird, the one wall ahead, the score, and the
/// time gathered towards the next gravity step.
pub struct State {
    pub mode: GameMode,
    pub bird: Bird,
    pub frame_time_us: u64,
    pub obstacle: Obstacle,
    pub score: i32,
}

/// The game as a new round starts: bird at rest at its start cell, the first
/// wall one screen ahead with its gap centered on `gap_y`, nothing scored.
pub open spec fn fresh_round(mode: GameMode, gap_y: i32) -> State {
    State {
        mode,
        bird: Bird { x: START_X, y: START_Y, velocity: 0 },
        frame_time_us: 0,
        obstacle: Obstacle { x: SCREEN_WIDTH, gap_y, size: BASE_GAP_SIZE },
        score: 0,
    }
}

/// What the menu and the game-over screen do with a key: `P` starts a new
/// round, `Q` asks to quit (the second component) and changes nothing, any
/// other key or none changes nothing.
pub open spec fn screen_spec(s: State, key: Option<Key>, gap_y: i32) -> (State, bool) {
    match key {
        Some(Key::P) => (fresh_round(GameMode::Playing, gap_y), false),
        Some(Key::Q) => (s, true),
        _ => (s, false),
    }
}

/// The bird after the frame's time has been gathered: one gravity step when
/// the gathered time passes the frame duration, then a flap on `Space`.
pub open spec fn moved_bird(s: State, elapsed_us: u32, key: Option<Key>) -> Bird {
    let stepped = if s.frame_time_us + elapsed_us > FRAME_DURATION_US {
        gravity_spec(s.bird)
    } else {
        s.bird
    };
    if key == Some(Key::Space) {
        Bird { velocity: FLAP_VELOCITY, ..stepped }
    } else {
        stepped
    }
}

/// One frame of play. The gathered time either passes the frame duration and
/// starts again from zero, or grows by the elapsed time. Once the bird is past
/// the wall, the score goes up by one and a wall for the new score stands one
/// screen ahead of the bird, its gap centered on `gap_y`. The round ends when
/// the bird is below the screen or strikes the (possibly new) wall.
pub open spec fn play_spec(s: State, elapsed_us: u32, key: Option<Key>, gap_y: i32) -> State {
    let gathered = s.frame_time_us + elapsed_us;
    let b = moved_bird(s, elapsed_us, key);
    let passed = b.x > s.obstacle.x;
    let score = if passed { s.score + 1 } else { s.score as int };
    let obstacle = if passed {
        Obstacle { x: (b.x + SCREEN_WIDTH) as i32, gap_y, size: gap_size(score) as i32 }
    } else {
        s.obstacle
    };
    State {
        mode: if b.y > SCREEN_HEIGHT || hits(obstacle, b.x as int, b.y as int) {
            GameMode::End
        } else {
            GameMode::Playing
        },
        bird: b,
        frame_time_us: (if gathered > FRAME_DURATION_US { 0 } else { gathered }) as u64,
        obstacle,
        score: score as i32,
    }
}

/// One frame in any mode; the second component asks to quit.
pub open spec fn step_spec(s: State, elapsed_us: u32, key: Option<Key>, gap_y: i32) -> (
    State,
    bool,
) {
    match s.mode {
        GameMode::Playing => (play_spec(s, elapsed_us, key, gap_y), false),
        _ => screen_spec(s, key, gap_y),
    }
}

impl State {
    /// The invariant of a game: valid bird and wall, a score that is a count
    /// below the wall's column, gathered time at most one frame, a bird never
    /// above the top row, and, while playing, never below the screen.
    pub open spec fn wf(&self) -> bool {
        &&& self.bird.wf()
        &&& self.obstacle.wf()
        &&& 0 <= self.score < self.obstacle.x
        &&& self.frame_time_us <= FRAME_DURATION_US
        &&& self.bird.y >= 0
        &&& self.mode == GameMode::Playing ==> self.bird.y <= SCREEN_HEIGHT
    }

    /// Room for a frame of play without leaving the range of `i32`: the bird
    /// may step once and a wall may be placed a screen ahead of it.
    pub open spec fn has_room(&self) -> bool {
        self.bird.x < i32::MAX - SCREEN_WIDTH
    }

    /// A game at the menu, its first wall's gap centered on `gap_y`.
    pub fn new_with_gap(gap_y: i32) -> (r: State)
        ensures
            r == fresh_round(GameMode::Menu, gap_y),
            r.wf(),
    {
        State {
            mode: GameMode::Menu,
            bird: Bird::new(START_X, START_Y),
            frame_time_us: 0,
            obstacle: Obstacle::new(SCREEN_WIDTH, 0, gap_y),
            score: 0,
        }
    }

    /// A game at the menu, its first wall's gap center drawn from `rng`.
    pub fn new(rng: &mut RandomNumberGenerator) -> (r: State)
        ensures
            exists|g: i32|
                GAP_CENTER_MIN <= g < GAP_CENTER_END && r == fresh_round(GameMode::Menu, g),
            r.wf(),
    {
        let gap_y = random_range(rng, GAP_CENTER_MIN, GAP_CENTER_END);
        State::new_with_gap(gap_y)
    }

    /// Starts a new round of play, the first wall's gap centered on `gap_y`.
    pub fn restart(&mut self, gap_y: i32)
        ensures
            *final(self) == fresh_round(GameMode::Playing, gap_y),
            final(self).wf(),
    {
        self.mode = GameMode::Playing;
        self.bird = Bird::new(START_X, START_Y);
        self.frame_time_us = 0;
        self.obstacle = Obstacle::new(SCREEN_WIDTH, 0, gap_y);
        self.score = 0;
    }

    /// The menu's reaction to `key`; returns whether the player asked to quit.
    pub fn menu(&mut self, key: Option<Key>, gap_y: i32) -> (quit: bool)
        requires
            old(self).wf(),
        ensures
            (*final(self), quit) == screen_spec(*old(self), key, gap_y),
            final(self).wf(),
    {
        self.react(key, gap_y)
    }

    /// The game-over screen's reaction to `key`; returns whether the player
    /// asked to quit.
    pub fn end(&mut self, key: Option<Key>, gap_y: i32) -> (quit: bool)
        requires
            old(self).wf(),
        ensures
            (*final(self), quit) == screen_spec(*old(self), key, gap_y),
            final(self).wf(),
    {
        self.react(key, gap_y)
    }

    fn react(&mut self, key: Option<Key>, gap_y: i32) -> (quit: bool)
        requires
            old(self).wf(),
        ensures
            (*final(self), quit) == screen_spec(*old(self), key, gap_y),
            final(self).wf(),
    {
        match key {
            Some(Key::P) => {
                self.restart(gap_y);
                false
            },
            Some(Key::Q) => true,
            _ => false,
        }
    }

    /// One frame of play: `elapsed_us` of time passed, `key` pressed, and
    /// `gap_y` the gap center of a wall made in this frame.
    pub fn play(&mut self, elapsed_us: u32, key: Option<Key>, gap_y: i32)
        requires
            old(self).wf(),
            old(self).mode == GameMode::Playing,
            old(self).has_room(),
        ensures
            *final(self) == play_spec(*old(self), elapsed_us, key, gap_y),
            final(self).wf(),
    {
        self.frame_time_us = self.frame_time_us + elapsed_us as u64;
        if self.frame_time_us > FRAME_DURATION_US {
            self.frame_time_us = 0;
            self.bird.gravity_effect();
        }
        if key == Some(Key::Space) {
            self.bird.flap();
        }
        if self.bird.x > self.obstacle.x {
            self.score = self.score + 1;
            self.obstacle = Obstacle::new(self.bird.x + SCREEN_WIDTH, self.score, gap_y);
        }
        if self.bird.y > SCREEN_HEIGHT || self.obstacle.is_hit(&self.bird) {
            self.mode = GameMode::End;
        }
    }

    /// One frame in whatever mode the game is in, with `gap_y` the gap center
    /// of a wall made in this frame; returns whether the player asked to quit.
    pub fn advance(&mut self, elapsed_us: u32, key: Option<Key>, gap_y: i32) -> (quit: bool)
        requires
            old(self).wf(),
            old(self).mode == GameMode::Playing ==> old(self).has_room(),
        ensures
            (*final(self), quit) == step_spec(*old(self), elapsed_us, key, gap_y),
            final(self).wf(),
    {
        match self.mode {
            GameMode::Menu => self.menu(key, gap_y),
            GameMode::Playing => {
                self.play(elapsed_us, key, gap_y);
                false
            },
            GameMode::End => self.end(key, gap_y),
        }
    }

    /// One frame in whatever mode the game is in, a wall made in this frame
    /// taking its gap center from `rng`; returns whether the player asked to
    /// quit.
    pub fn tick(&mut self, elapsed_us: u32, key: Option<Key>, rng: &mut RandomNumberGenerator) -> (quit: bool)
        requires
            old(self).wf(),
            old(self).mode == GameMode::Playing ==> old(self).has_room(),
        ensures
            exists|g: i32|
                GAP_CENTER_MIN <= g < GAP_CENTER_END && (*final(self), quit) == step_spec(
                    *old(self),
                    elapsed_us,
                    key,
                    g,
                ),
            final(self).wf(),
    {
        let gap_y = random_range(rng, GAP_CENTER_MIN, GAP_CENTER_END);
        self.advance(elapsed_us, key, gap_y)
    }
}

/// In a frame of play where the bird moves past the wall, the score goes up
/// by exactly one and the new wall stands one screen ahead of the bird, its gap
/// sized for the new score; in any other frame the score and the wall stay.
pub proof fn lemma_scoring(s: State, elapsed_us: u32, key: Option<Key>, gap_y: i32)
    requires
        s.wf(),
        s.mode == GameMode::Playing,
        s.has_room(),
    ensures
        ({
            let t = play_spec(s, elapsed_us, key, gap_y);
            &&& t.bird.x > s.obstacle.x ==> {
                &&& t.score == s.score + 1
                &&& t.obstacle.x == t.bird.x + SCREEN_WIDTH
                &&& t.obstacle.gap_y == gap_y
                &&& t.obstacle.size == gap_size(t.score as int)
            }
            &&& t.bird.x <= s.obstacle.x ==> t.score == s.score && t.obstacle == s.obstacle
        }),
{
}

/// Every frame, in any mode, keeps the invariant of the game, so the bird is
/// never above the top row and the gathered time never exceeds one frame.
pub proof fn lemma_step_keeps_wf(s: State, elapsed_us: u32, key: Option<Key>, gap_y: i32)
    requires
        s.wf(),
        s.mode == GameMode::Playing ==> s.has_room(),
    ensures
        step_spec(s, elapsed_us, key, gap_y).0.wf(),
        step_spec(s, elapsed_us, key, gap_y).0.bird.y >= 0,
{
}

} // verus!
