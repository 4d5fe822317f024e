//! One paddle: its vertical position and its score.

use vstd::prelude::*;

verus! {

use crate::arena::{SPEED, PLAYER_MAX_Y, HITBOX_ABOVE, HITBOX_BELOW, fits};
use crate::ball::Ball;

/// A paddle. `y` is the top of the paddle in half-pixel units, clamped to
/// `[0, PLAYER_MAX_Y]` by every movement; `points` is the score, which only
/// ever grows, by one per successful save.
#[derive(Clone, Copy, PartialEq, Eq, Structural, Debug)]
pub struct Player {
    pub y: i64,
    pub points: u64,
}

impl Player {
    /// The clamping invariant: the paddle never leaves the arena.
    pub open spec fn wf(self) -> bool {
        0 <= self.y <= PLAYER_MAX_Y
    }

    /// Machine-limit headroom: one frame of arithmetic on `y` fits in `i64`.
    pub open spec fn bounded(self) -> bool {
        fits(self.y as int)
    }

    /// Where one step up from `y` lands: `SPEED` units higher on the screen,
    /// clamped at the top wall.
    pub open spec fn moved_up(y: int) -> int {
        if y - SPEED < 0 { 0 } else { y - SPEED }
    }

    /// Where one step down from `y` lands, clamped at the bottom wall.
    pub open spec fn moved_down(y: int) -> int {
        if y + SPEED > PLAYER_MAX_Y { PLAYER_MAX_Y as int } else { y + SPEED }
    }

    /// The paddle's hit-box covers a ball at height `ball_y`: the box reaches
    /// `HITBOX_ABOVE` units above the paddle top and `HITBOX_BELOW` below it.
    pub open spec fn covers(self, ball_y: int) -> bool {
        self.y - HITBOX_ABOVE <= ball_y <= self.y + HITBOX_BELOW
    }

    /// A fresh paddle at the very top with no points.
    pub fn new() -> (p: Player)
        ensures
            p.y == 0,
            p.points == 0,
            p.wf(),
    {
        Player { y: 0, points: 0 }
    }

    /// Move one step up, clamped at the top of the arena.
    pub fn up(&mut self)
        requires
            old(self).bounded(),
        ensures
            final(self).y == Self::moved_up(old(self).y as int),
            final(self).points == old(self).points,
            final(self).bounded(),
            old(self).wf() ==> final(self).wf(),
    {
        self.y = self.y - SPEED;
        if self.y < 0 {
            self.y = 0;
        }
    }

    /// Move one step down, clamped at the bottom of the arena.
    pub fn down(&mut self)
        requires
            old(self).bounded(),
        ensures
            final(self).y == Self::moved_down(old(self).y as int),
            final(self).points == old(self).points,
            final(self).bounded(),
            old(self).wf() ==> final(self).wf(),
    {
        self.y = self.y + SPEED;
        if self.y > PLAYER_MAX_Y {
            self.y = PLAYER_MAX_Y;
        }
    }

    /// Attempt a save: true iff the hit-box covers the ball's height. This
    /// query is deliberately not pure: every call that returns true also
    /// counts one point, so a caller must call it at most once per frame per
    /// side.
    pub fn collided(&mut self, ball: &Ball) -> (hit: bool)
        requires
            old(self).bounded(),
            old(self).points < u64::MAX,
        ensures
            hit == old(self).covers(ball.y as int),
            final(self).y == old(self).y,
            final(self).points == old(self).points + (if hit { 1int } else { 0int }),
    {
        let hit = ball.y >= self.y - HITBOX_ABOVE && ball.y <= self.y + HITBOX_BELOW;
        if hit {
            self.points = self.points + 1;
        }
        hit
    }
}

} // verus!
