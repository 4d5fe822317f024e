//! The match loop state: two paddles and the ball, advanced one frame at a
//! time from a millisecond timestamp and the four held keys.

use vstd::prelude::*;

verus! {

use crate::arena::{FREEZE_MS, LEFT_GOAL_X, PLAYER_MAX_Y, RIGHT_GOAL_X};
use crate::ball::{Ball, Collision};
use crate::player::Player;

/// A whole match. The left paddle is `player_a`, the right one `player_b`.
#[derive(Clone, Copy, PartialEq, Eq, Structural, Debug)]
pub struct Game {
    pub player_a: Player,
    pub player_b: Player,
    pub ball: Ball,
}

impl Game {
    /// Both paddles inside the arena and the ball in a reachable state.
    pub open spec fn wf(self) -> bool {
        &&& self.player_a.wf()
        &&& self.player_b.wf()
        &&& self.ball.wf()
    }

    /// Machine-limit headroom on every coordinate (see `arena::fits`).
    pub open spec fn bounded(self) -> bool {
        &&& self.player_a.bounded()
        &&& self.player_b.bounded()
        &&& self.ball.bounded()
    }

    /// The freeze window is still open at `now_ms`: less than `FREEZE_MS`
    /// milliseconds have passed since the last round reset.
    pub open spec fn frozen(self, now_ms: u64) -> bool {
        now_ms < self.ball.continue_timer + FREEZE_MS
    }

    /// A paddle after one frame of input. When both keys are held, up wins;
    /// down is only honoured when up is not.
    pub open spec fn with_input(p: Player, up: bool, down: bool) -> Player {
        if up {
            Player { y: Player::moved_up(p.y as int) as i64, ..p }
        } else if down {
            Player { y: Player::moved_down(p.y as int) as i64, ..p }
        } else {
            p
        }
    }

    /// One unfrozen frame: apply input to both paddles, then run the ball's
    /// physics step against them.
    pub open spec fn spec_step(
        self,
        now_ms: u64,
        a_up: bool,
        a_down: bool,
        b_up: bool,
        b_down: bool,
    ) -> (Game, Collision) {
        let pa = Self::with_input(self.player_a, a_up, a_down);
        let pb = Self::with_input(self.player_b, b_up, b_down);
        let r = self.ball.spec_update(pa, pb, now_ms);
        (Game { player_a: r.1, player_b: r.2, ball: r.0 }, r.3)
    }

    /// One frame of the match: while the freeze window is open nothing moves
    /// and nothing is reported; otherwise the frame is `spec_step`.
    pub open spec fn spec_tick(
        self,
        now_ms: u64,
        a_up: bool,
        a_down: bool,
        b_up: bool,
        b_down: bool,
    ) -> (Game, Collision) {
        if self.frozen(now_ms) {
            (self, Collision::Nothing)
        } else {
            self.spec_step(now_ms, a_up, a_down, b_up, b_down)
        }
    }

    /// A fresh match: both paddles at the top with no points, the ball at its
    /// spawn point, and the freeze window open from `now_ms` so that play
    /// starts after one freeze worth of delay.
    pub fn new(now_ms: u64) -> (g: Game)
        ensures
            g.player_a == (Player { y: 0, points: 0 }),
            g.player_b == (Player { y: 0, points: 0 }),
            g.ball == Ball::spec_spawn(now_ms),
            g.wf(),
            g.bounded(),
    {
        Game { player_a: Player::new(), player_b: Player::new(), ball: Ball::new(now_ms) }
    }

    /// One frame of the match: exactly `spec_tick` of the incoming state.
    /// Within `FREEZE_MS` of the last reset nothing at all is mutated; the
    /// first frame at or after the window closes resumes the simulation. The
    /// returned outcome is what the frame's physics found (`Nothing` while
    /// frozen), for the caller to pick a sound cue from.
    pub fn update(&mut self, now_ms: u64, a_up: bool, a_down: bool, b_up: bool, b_down: bool) -> (c:
        Collision)
        requires
            old(self).bounded(),
            old(self).player_a.points < u64::MAX,
            old(self).player_b.points < u64::MAX,
        ensures
            (*final(self), c) == old(self).spec_tick(now_ms, a_up, a_down, b_up, b_down),
            old(self).frozen(now_ms) ==> *final(self) == *old(self) && c == Collision::Nothing,
            old(self).wf() ==> final(self).wf(),
    {
        let timer = self.ball.continue_timer;
        let elapsed = if now_ms >= timer {
            now_ms - timer
        } else {
            0
        };
        if elapsed < FREEZE_MS {
            return Collision::Nothing;
        }

        let mut pa = self.player_a;
        let mut pb = self.player_b;
        let mut ball = self.ball;

        if a_up {
            pa.up();
        } else if a_down {
            pa.down();
        }
        if b_up {
            pb.up();
        } else if b_down {
            pb.down();
        }

        let c = ball.update(now_ms, &mut pa, &mut pb);

        self.player_a = pa;
        self.player_b = pb;
        self.ball = ball;
        c
    }
}

/// Law: from any well-formed state, one frame leaves both paddles clamped to
/// the arena — `0 <= y <= PLAYER_MAX_Y` — and the whole state well-formed
/// again, whatever the inputs and the clock say.
pub proof fn lemma_frame_keeps_paddles_clamped(
    g: Game,
    now_ms: u64,
    a_up: bool,
    a_down: bool,
    b_up: bool,
    b_down: bool,
)
    requires
        g.wf(),
    ensures
        ({
            let next = g.spec_tick(now_ms, a_up, a_down, b_up, b_down).0;
            &&& 0 <= next.player_a.y <= PLAYER_MAX_Y
            &&& 0 <= next.player_b.y <= PLAYER_MAX_Y
            &&& next.wf()
        }),
{
}

/// Law: a score never shrinks, and it grows — by exactly one, on the paddle
/// whose side the ball reached — exactly when the frame's outcome is a `Hit`.
/// On every other frame both scores are untouched. (The `u64::MAX` bounds
/// only keep the incremented score representable.)
pub proof fn lemma_score_changes_only_on_hit(
    g: Game,
    now_ms: u64,
    a_up: bool,
    a_down: bool,
    b_up: bool,
    b_down: bool,
)
    requires
        g.player_a.points < u64::MAX,
        g.player_b.points < u64::MAX,
    ensures
        ({
            let (next, c) = g.spec_tick(now_ms, a_up, a_down, b_up, b_down);
            &&& g.player_a.points <= next.player_a.points <= g.player_a.points + 1
            &&& g.player_b.points <= next.player_b.points <= g.player_b.points + 1
            &&& next.player_a.points == if c == Collision::Hit && g.ball.spec_adv_x()
                < LEFT_GOAL_X {
                g.player_a.points + 1
            } else {
                g.player_a.points as int
            }
            &&& next.player_b.points == if c == Collision::Hit && g.ball.spec_adv_x()
                > RIGHT_GOAL_X {
                g.player_b.points + 1
            } else {
                g.player_b.points as int
            }
        }),
{
}

/// Law: while the freeze window is open nothing moves — the frame returns the
/// state unchanged and reports no contact — and the first frame at or after
/// the window's close is exactly an unfrozen simulation step.
pub proof fn lemma_freeze_gates_simulation(
    g: Game,
    now_ms: u64,
    a_up: bool,
    a_down: bool,
    b_up: bool,
    b_down: bool,
)
    ensures
        g.frozen(now_ms) ==> g.spec_tick(now_ms, a_up, a_down, b_up, b_down) == (
            g,
            Collision::Nothing,
        ),
        !g.frozen(now_ms) ==> g.spec_tick(now_ms, a_up, a_down, b_up, b_down) == g.spec_step(
            now_ms,
            a_up,
            a_down,
            b_up,
            b_down,
        ),
{
}

} // verus!
