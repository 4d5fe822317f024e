//! The ball: position and velocity, the per-frame physics step, and the
//! outcome of each frame.

use vstd::prelude::*;

verus! {

use crate::arena::{
    BALL_SPEED, LEFT_GOAL_X, RESET_PLAYER_Y, RIGHT_GOAL_X, SPAWN_X, SPAWN_Y, WALL_MAX_Y, fits,
};
use crate::player::Player;

/// What one frame of ball physics found: `Nothing` (no paddle zone reached),
/// `Hit` (a paddle saved the ball), or `Miss` (the ball got past a paddle and
/// the round was reset).
#[derive(Clone, Copy, PartialEq, Eq, Structural, Debug)]
pub enum Collision {
    Nothing,
    Hit,
    Miss,
}

/// The ball. Position and velocity are in half-pixel units; `continue_timer`
/// is the millisecond timestamp of the last round reset, which gates the
/// post-score freeze.
#[derive(Clone, Copy, PartialEq, Eq, Structural, Debug)]
pub struct Ball {
    pub x: i64,
    pub y: i64,
    pub xvel: i64,
    pub yvel: i64,
    pub continue_timer: u64,
}

impl Ball {
    /// Machine-limit headroom: one frame of arithmetic fits in `i64`.
    pub open spec fn bounded(self) -> bool {
        &&& fits(self.x as int)
        &&& fits(self.y as int)
        &&& fits(self.xvel as int)
        &&& fits(self.yvel as int)
    }

    /// Every state the ball can reach from a spawn. The speed never changes,
    /// only its sign; the ball may overshoot a wall or a goal line by at most
    /// one frame of travel, and whenever it sits beyond one it is already
    /// heading back in.
    pub open spec fn wf(self) -> bool {
        &&& self.xvel == BALL_SPEED || self.xvel == -BALL_SPEED
        &&& self.yvel == BALL_SPEED || self.yvel == -BALL_SPEED
        &&& LEFT_GOAL_X - 2 * BALL_SPEED <= self.x <= RIGHT_GOAL_X + 2 * BALL_SPEED
        &&& self.x < LEFT_GOAL_X - BALL_SPEED ==> self.xvel == BALL_SPEED
        &&& self.x > RIGHT_GOAL_X + BALL_SPEED ==> self.xvel == -BALL_SPEED
        &&& -BALL_SPEED <= self.y <= WALL_MAX_Y + BALL_SPEED
        &&& self.y < 0 ==> self.yvel == BALL_SPEED
        &&& self.y > WALL_MAX_Y ==> self.yvel == -BALL_SPEED
    }

    /// The spawn state: where the ball starts and where every miss puts it
    /// back, with the freeze window open from `now_ms`.
    pub open spec fn spec_spawn(now_ms: u64) -> Ball {
        Ball { x: SPAWN_X, y: SPAWN_Y, xvel: BALL_SPEED, yvel: BALL_SPEED, continue_timer: now_ms }
    }

    /// The ball's horizontal position after this frame's unconditional advance.
    pub open spec fn spec_adv_x(self) -> int {
        self.x + self.xvel
    }

    /// The ball's vertical position after this frame's unconditional advance.
    pub open spec fn spec_adv_y(self) -> int {
        self.y + self.yvel
    }

    /// This frame's vertical velocity once the walls are accounted for: the
    /// sign flips when the advanced position is past a wall. The position is
    /// not clamped back into range the same frame; the flipped velocity
    /// brings it back on the next one.
    pub open spec fn spec_bounced_yvel(self) -> int {
        if self.spec_adv_y() < 0 || self.spec_adv_y() > WALL_MAX_Y {
            -self.yvel
        } else {
            self.yvel as int
        }
    }

    /// This frame's outcome, decided on the advanced position: the left
    /// paddle zone is checked first, then the right, and reaching a zone is a
    /// `Hit` exactly when that paddle's hit-box covers the ball's height.
    pub open spec fn spec_outcome(self, player_a: Player, player_b: Player) -> Collision {
        if self.spec_adv_x() < LEFT_GOAL_X {
            if player_a.covers(self.spec_adv_y()) {
                Collision::Hit
            } else {
                Collision::Miss
            }
        } else if self.spec_adv_x() > RIGHT_GOAL_X {
            if player_b.covers(self.spec_adv_y()) {
                Collision::Hit
            } else {
                Collision::Miss
            }
        } else {
            Collision::Nothing
        }
    }

    /// One whole frame of ball physics as a mathematical function: the new
    /// ball, the two paddles after collision resolution, and the outcome.
    /// On a `Hit` the ball rebounds (horizontal velocity flips) and the
    /// saving paddle scores a point; on a `Miss` the ball respawns, both
    /// paddles recentre, and the freeze window restarts at `now_ms`; on
    /// `Nothing` only the advance and any wall bounce remain.
    pub open spec fn spec_update(self, player_a: Player, player_b: Player, now_ms: u64) -> (
        Ball,
        Player,
        Player,
        Collision,
    ) {
        let moved = Ball {
            x: self.spec_adv_x() as i64,
            y: self.spec_adv_y() as i64,
            xvel: self.xvel,
            yvel: self.spec_bounced_yvel() as i64,
            continue_timer: self.continue_timer,
        };
        match self.spec_outcome(player_a, player_b) {
            Collision::Nothing => (moved, player_a, player_b, Collision::Nothing),
            Collision::Hit => {
                let rebound = Ball { xvel: (0 - self.xvel) as i64, ..moved };
                if self.spec_adv_x() < LEFT_GOAL_X {
                    let scored = Player { points: (player_a.points + 1) as u64, ..player_a };
                    (rebound, scored, player_b, Collision::Hit)
                } else {
                    let scored = Player { points: (player_b.points + 1) as u64, ..player_b };
                    (rebound, player_a, scored, Collision::Hit)
                }
            },
            Collision::Miss => (
                Self::spec_spawn(now_ms),
                Player { y: RESET_PLAYER_Y, ..player_a },
                Player { y: RESET_PLAYER_Y, ..player_b },
                Collision::Miss,
            ),
        }
    }

    /// A fresh ball at the spawn point, heading down-right at full speed,
    /// with the freeze window starting at `now_ms`.
    pub fn new(now_ms: u64) -> (b: Ball)
        ensures
            b == Self::spec_spawn(now_ms),
            b.wf(),
            b.bounded(),
    {
        Ball {
            x: SPAWN_X,
            y: SPAWN_Y,
            xvel: BALL_SPEED,
            yvel: BALL_SPEED,
            continue_timer: now_ms,
        }
    }

    /// One frame of ball physics: advance, bounce off the walls, test the
    /// paddle zones, and apply the outcome. Exactly `spec_update` of the
    /// incoming state; on a `Miss` the freeze window restarts at `now_ms`.
    /// Scoring happens inside `Player::collided`, so each paddle's score
    /// grows by one exactly on a `Hit` on its side.
    pub fn update(&mut self, now_ms: u64, player_a: &mut Player, player_b: &mut Player) -> (c:
        Collision)
        requires
            old(self).bounded(),
            old(player_a).bounded(),
            old(player_b).bounded(),
            old(player_a).points < u64::MAX,
            old(player_b).points < u64::MAX,
        ensures
            (*final(self), *final(player_a), *final(player_b), c) == old(self).spec_update(
                *old(player_a),
                *old(player_b),
                now_ms,
            ),
            c == old(self).spec_outcome(*old(player_a), *old(player_b)),
            old(self).wf() ==> final(self).wf(),
            old(player_a).wf() ==> final(player_a).wf(),
            old(player_b).wf() ==> final(player_b).wf(),
    {
        self.x = self.x + self.xvel;
        self.y = self.y + self.yvel;

        if self.y < 0 || self.y > WALL_MAX_Y {
            self.yvel = -self.yvel;
        }

        let mut collision = Collision::Nothing;
        let snapshot = *self;
        if self.x < LEFT_GOAL_X {
            collision = if player_a.collided(&snapshot) {
                Collision::Hit
            } else {
                Collision::Miss
            };
        } else if self.x > RIGHT_GOAL_X {
            collision = if player_b.collided(&snapshot) {
                Collision::Hit
            } else {
                Collision::Miss
            };
        }

        match collision {
            Collision::Hit => {
                self.xvel = -self.xvel;
            },
            Collision::Miss => {
                self.continue_timer = now_ms;
                self.x = SPAWN_X;
                self.y = SPAWN_Y;

                self.xvel = BALL_SPEED;
                self.yvel = BALL_SPEED;

                player_a.y = RESET_PLAYER_Y;
                player_b.y = RESET_PLAYER_Y;
            },
            Collision::Nothing => {},
        }

        collision
    }
}

/// Law: on a frame whose advanced position is past a wall and whose outcome
/// is not a miss, the vertical velocity of the resulting ball is exactly the
/// old one with its sign flipped — the magnitude is untouched. (A miss is
/// excluded because the round reset overwrites the bounced velocity: a ball
/// missed at the lower wall comes back with the spawn velocity instead.)
pub proof fn lemma_wall_bounce_flips_y_velocity(b: Ball, pa: Player, pb: Player, now_ms: u64)
    requires
        b.bounded(),
        b.spec_adv_y() < 0 || b.spec_adv_y() > WALL_MAX_Y,
        b.spec_update(pa, pb, now_ms).3 != Collision::Miss,
    ensures
        b.spec_update(pa, pb, now_ms).0.yvel == -b.yvel,
{
}

/// Law: whatever the state was before the frame, a `Miss` outcome leaves the
/// ball back at its spawn point with the spawn velocity, both paddles
/// recentred, neither score changed, and the freeze window open from
/// `now_ms`.
pub proof fn lemma_miss_resets_round(b: Ball, pa: Player, pb: Player, now_ms: u64)
    requires
        b.spec_update(pa, pb, now_ms).3 == Collision::Miss,
    ensures
        b.spec_update(pa, pb, now_ms).0 == Ball::spec_spawn(now_ms),
        b.spec_update(pa, pb, now_ms).1 == (Player { y: RESET_PLAYER_Y, ..pa }),
        b.spec_update(pa, pb, now_ms).2 == (Player { y: RESET_PLAYER_Y, ..pb }),
{
}

} // verus!
