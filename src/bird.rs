use vstd::prelude::*;

verus! {

/// Velocity added by one gravity step, in tenths of a cell per step.
pub const GRAVITY_INCREMENT: i32 = 2;

/// Once the velocity has reached this value, gravity adds nothing more.
pub const MAX_VELOCITY: i32 = 20;

/// The velocity that a flap sets, upward (negative is up).
pub const FLAP_VELOCITY: i32 = -20;

/// The player's bird. `y` grows downward; `velocity` is in tenths of a cell
/// per gravity step.
pub struct Bird {
    pub x: i32,
    pub y: i32,
    pub velocity: i32,
}

/// Whole cells covered by one step at velocity `v` tenths: the quotient
/// truncated toward zero.
pub open spec fn cells_moved(v: int) -> int {
    if v >= 0 {
        v / 10
    } else {
        -((-v) / 10)
    }
}

/// The velocity after one gravity step.
pub open spec fn accelerated(v: int) -> int {
    if v < MAX_VELOCITY {
        v + GRAVITY_INCREMENT
    } else {
        v
    }
}

/// The bird after one gravity step.
pub open spec fn gravity_spec(b: Bird) -> Bird {
    let v = accelerated(b.velocity as int);
    let y = b.y + cells_moved(v);
    Bird { x: (b.x + 1) as i32, y: (if y < 0 { 0 } else { y }) as i32, velocity: v as i32 }
}

/// The bird after `n` gravity steps with no flap between them.
pub open spec fn gravity_steps(b: Bird, n: nat) -> Bird
    decreases n,
{
    if n == 0 {
        b
    } else {
        gravity_spec(gravity_steps(b, (n - 1) as nat))
    }
}

impl Bird {
    /// A velocity that flaps and gravity steps can reach: an even number of
    /// tenths between the flap velocity and the cap.
    pub open spec fn wf(&self) -> bool {
        &&& FLAP_VELOCITY <= self.velocity <= MAX_VELOCITY
        &&& self.velocity % 2 == 0
    }

    /// Room for one more gravity step without leaving the range of `i32`.
    pub open spec fn can_fall(&self) -> bool {
        &&& self.x < i32::MAX
        &&& i32::MIN + 2 <= self.y <= i32::MAX - 2
    }

    /// A bird at rest at the given cell.
    pub fn new(x: i32, y: i32) -> (r: Bird)
        ensures
            r == (Bird { x, y, velocity: 0 }),
            r.wf(),
    {
        Bird { x, y, velocity: 0 }
    }

    /// One gravity step: accelerate up to the cap, move down by the truncated
    /// velocity, move right by one cell, and stop at the top row.
    pub fn gravity_effect(&mut self)
        requires
            old(self).wf(),
            old(self).can_fall(),
        ensures
            *final(self) == gravity_spec(*old(self)),
            final(self).wf(),
            final(self).x == old(self).x + 1,
            final(self).y >= 0,
            old(self).velocity <= final(self).velocity <= MAX_VELOCITY,
    {
        if self.velocity < MAX_VELOCITY {
            self.velocity = self.velocity + GRAVITY_INCREMENT;
        }
        let dy: i32 = if self.velocity >= 0 {
            self.velocity / 10
        } else {
            -((-self.velocity) / 10)
        };
        self.y = self.y + dy;
        self.x = self.x + 1;
        if self.y < 0 {
            self.y = 0;
        }
    }

    /// Sets the velocity to the upward flap velocity, whatever it was.
    pub fn flap(&mut self)
        ensures
            *final(self) == (Bird { velocity: FLAP_VELOCITY, ..*old(self) }),
            final(self).wf(),
    {
        self.velocity = FLAP_VELOCITY;
    }
}

/// One gravity step keeps a valid velocity valid, never lowers it, and never
/// takes it past the cap.
pub proof fn lemma_gravity_step_velocity(b: Bird)
    requires
        b.wf(),
    ensures
        gravity_spec(b).wf(),
        b.velocity <= gravity_spec(b).velocity <= MAX_VELOCITY,
{
}

/// Every bird reached from a valid one by gravity steps alone is valid.
pub proof fn lemma_gravity_steps_wf(b: Bird, n: nat)
    requires
        b.wf(),
    ensures
        gravity_steps(b, n).wf(),
    decreases n,
{
    if n > 0 {
        lemma_gravity_steps_wf(b, (n - 1) as nat);
        lemma_gravity_step_velocity(gravity_steps(b, (n - 1) as nat));
    }
}

/// Along any run of gravity steps with no flap between them, the velocity
/// never decreases and never passes the cap: after `i` steps it is at most
/// what it is after `j >= i` steps, which is at most the cap.
pub proof fn lemma_gravity_monotone(b: Bird, i: nat, j: nat)
    requires
        b.wf(),
        i <= j,
    ensures
        gravity_steps(b, i).velocity <= gravity_steps(b, j).velocity <= MAX_VELOCITY,
    decreases j,
{
    lemma_gravity_steps_wf(b, j);
    if i < j {
        lemma_gravity_monotone(b, i, (j - 1) as nat);
        lemma_gravity_steps_wf(b, (j - 1) as nat);
        lemma_gravity_step_velocity(gravity_steps(b, (j - 1) as nat));
    }
}

} // verus!
