use vstd::prelude::*;
use bracket_lib::random::RandomNumberGenerator;
use crate::bird::Bird;

verus! {

/// Height of the screen in cells; walls reach down to the last row.
pub const SCREEN_HEIGHT: i32 = 50;

/// The gap of a wall at score zero.
pub const BASE_GAP_SIZE: i32 = 20;

/// The narrowest a gap gets, whatever the score.
pub const MIN_GAP_SIZE: i32 = 2;

/// Lowest gap center a new wall can have.
pub const GAP_CENTER_MIN: i32 = 10;

/// One past the highest gap center a new wall can have.
pub const GAP_CENTER_END: i32 = 40;

#[verifier::external_type_specification]
#[verifier::external_body]
pub struct ExRandomNumberGenerator(RandomNumberGenerator);

/// Relies on bracket-random's `RandomNumberGenerator::range`, which draws
/// through `rand`'s `gen_range(min..max)`: a value at least `min` and below
/// `max` (it panics when the range is empty).
#[verifier::external_body]
pub(crate) fn random_range(rng: &mut RandomNumberGenerator, min: i32, max: i32) -> (r: i32)
    requires
        min < max,
    ensures
        min <= r < max,
{
    rng.range(min, max)
}

/// A wall at world column `x`, open between the two halves of its gap.
pub struct Obstacle {
    pub x: i32,
    pub gap_y: i32,
    pub size: i32,
}

/// The cells that a wall fills on the screen: column `screen_x`, rows
/// `0..top_end` and rows `bottom_start..SCREEN_HEIGHT`.
pub struct WallSpans {
    pub screen_x: i64,
    pub top_end: i64,
    pub bottom_start: i64,
}

/// The gap size of a wall made at the given score.
pub open spec fn gap_size(score: int) -> int {
    if BASE_GAP_SIZE - score < MIN_GAP_SIZE {
        MIN_GAP_SIZE as int
    } else {
        BASE_GAP_SIZE - score
    }
}

/// Whether a bird at (`bx`, `by`) strikes wall `o`: same column, and outside
/// the closed band of half a gap (rounded down) about the gap center.
pub open spec fn hits(o: Obstacle, bx: int, by: int) -> bool {
    &&& bx == o.x
    &&& (by < o.gap_y - o.size / 2 || by > o.gap_y + o.size / 2)
}

impl Obstacle {
    /// A gap that is at least two cells high.
    pub open spec fn wf(&self) -> bool {
        self.size >= MIN_GAP_SIZE
    }

    /// A wall at column `x` with its gap centered on `gap_y`, sized for `score`.
    pub fn new(x: i32, score: i32, gap_y: i32) -> (r: Obstacle)
        requires
            BASE_GAP_SIZE - score <= i32::MAX,
        ensures
            r.x == x,
            r.gap_y == gap_y,
            r.size == gap_size(score as int),
            r.wf(),
    {
        let room: i32 = BASE_GAP_SIZE - score;
        let size: i32 = if room < MIN_GAP_SIZE { MIN_GAP_SIZE } else { room };
        Obstacle { x, gap_y, size }
    }

    /// A wall at column `x` sized for `score`, with a gap center drawn from
    /// `rng` in `GAP_CENTER_MIN..GAP_CENTER_END`.
    pub fn spawn(x: i32, score: i32, rng: &mut RandomNumberGenerator) -> (r: Obstacle)
        requires
            BASE_GAP_SIZE - score <= i32::MAX,
        ensures
            r.x == x,
            GAP_CENTER_MIN <= r.gap_y < GAP_CENTER_END,
            r.size == gap_size(score as int),
            r.wf(),
    {
        let gap_y = random_range(rng, GAP_CENTER_MIN, GAP_CENTER_END);
        Obstacle::new(x, score, gap_y)
    }

    /// Whether `bird` strikes this wall.
    pub fn is_hit(&self, bird: &Bird) -> (r: bool)
        requires
            self.wf(),
        ensures
            r == hits(*self, bird.x as int, bird.y as int),
    {
        let half_size: i64 = (self.size / 2) as i64;
        let is_x_match = bird.x == self.x;
        let bird_above_gap = (bird.y as i64) < (self.gap_y as i64) - half_size;
        let bird_below_gap = (bird.y as i64) > (self.gap_y as i64) + half_size;
        is_x_match && (bird_above_gap || bird_below_gap)
    }

    /// Where this wall stands on a screen whose left edge follows the bird at
    /// world column `bird_x`.
    pub fn render_segments(&self, bird_x: i32) -> (r: WallSpans)
        requires
            self.wf(),
        ensures
            r.screen_x == self.x - bird_x,
            r.top_end == self.gap_y - self.size / 2,
            r.bottom_start == self.gap_y + self.size / 2,
    {
        let half_size: i64 = (self.size / 2) as i64;
        WallSpans {
            screen_x: self.x as i64 - bird_x as i64,
            top_end: self.gap_y as i64 - half_size,
            bottom_start: self.gap_y as i64 + half_size,
        }
    }
}

/// A wall made at a score of 18 or more has the narrowest gap; below that the
/// gap is 20 less the score.
pub proof fn lemma_gap_size_floor(score: int)
    ensures
        score >= 18 ==> gap_size(score) == 2,
        score < 18 ==> gap_size(score) == 20 - score,
{
}

/// Only a bird in the wall's own column can strike it; in that column it
/// strikes exactly when it lies outside the closed gap band.
pub proof fn lemma_hit_exact(o: Obstacle, bx: int, by: int)
    ensures
        bx != o.x ==> !hits(o, bx, by),
        bx == o.x ==> (hits(o, bx, by) <==> !(o.gap_y - o.size / 2 <= by
            <= o.gap_y + o.size / 2)),
{
}

} // verus!
