//! End-to-end checks of the simulation through its public API. All
//! coordinates are in the library's half-pixel units: 13 is 6.5 pixels of
//! ball travel, 20 is one 10-pixel paddle step.

use pong::{Ball, Collision, Game, Player};

#[test]
fn new_player_starts_at_top_with_no_points() {
    let p = Player::new();
    assert_eq!(p.y, 0);
    assert_eq!(p.points, 0);
}

#[test]
fn new_ball_spawns_diagonally_at_fifty_fifty() {
    let b = Ball::new(123);
    assert_eq!((b.x, b.y), (100, 100));
    assert_eq!((b.xvel, b.yvel), (13, 13));
    assert_eq!(b.continue_timer, 123);
}

#[test]
fn new_game_holds_fresh_players_and_ball() {
    let g = Game::new(7);
    assert_eq!(g.player_a, Player { y: 0, points: 0 });
    assert_eq!(g.player_b, Player { y: 0, points: 0 });
    assert_eq!(g.ball, Ball::new(7));
}

#[test]
fn move_down_steps_by_twenty_and_clamps() {
    let mut p = Player::new();
    p.down();
    assert_eq!(p.y, 20);
    p.down();
    assert_eq!(p.y, 40);

    let mut low = Player { y: 1090, points: 0 };
    low.down();
    assert_eq!(low.y, 1100);
    low.down();
    assert_eq!(low.y, 1100);
}

#[test]
fn move_up_from_five_pixels_converges_to_zero_and_stays() {
    // a paddle five pixels down: repeated moves up land on the wall, never past it
    let mut p = Player { y: 10, points: 0 };
    p.up();
    assert_eq!(p.y, 0);
    for _ in 0..5 {
        p.up();
        assert_eq!(p.y, 0);
        assert!(p.y >= 0);
    }
}

#[test]
fn collision_test_is_a_scoring_query() {
    // ball at 100 pixels height, paddle at 60: inside [50, 120] pixels
    let mut p = Player { y: 120, points: 4 };
    let b = Ball { x: 10, y: 200, xvel: -13, yvel: 13, continue_timer: 0 };
    assert!(p.collided(&b));
    assert_eq!(p.points, 5);

    // ball at 200 pixels height: outside the box, and no point
    let miss = Ball { y: 400, ..b };
    assert!(!p.collided(&miss));
    assert_eq!(p.points, 5);
}

#[test]
fn collision_box_boundaries_are_inclusive() {
    let paddle = Player { y: 120, points: 0 };
    for (ball_y, expect) in [(99, false), (100, true), (240, true), (241, false)] {
        let mut p = paddle;
        let b = Ball { x: 10, y: ball_y, xvel: -13, yvel: 13, continue_timer: 0 };
        assert_eq!(p.collided(&b), expect);
        assert_eq!(p.points, if expect { 1 } else { 0 });
    }
}

#[test]
fn left_hit_rebounds_and_scores() {
    // advances to (5, 100) pixels with the left paddle at 60: a save
    let mut b = Ball { x: 23, y: 187, xvel: -13, yvel: 13, continue_timer: 9 };
    let mut pa = Player { y: 120, points: 4 };
    let mut pb = Player { y: 600, points: 2 };
    let c = b.update(1000, &mut pa, &mut pb);
    assert_eq!(c, Collision::Hit);
    assert_eq!((b.x, b.y), (10, 200));
    assert_eq!((b.xvel, b.yvel), (13, 13));
    assert_eq!(b.continue_timer, 9, "a hit keeps the rally going");
    assert_eq!(pa, Player { y: 120, points: 5 });
    assert_eq!(pb, Player { y: 600, points: 2 });
}

#[test]
fn left_miss_resets_the_round() {
    // advances to (5, 200) pixels, far below the left paddle at 60
    let mut b = Ball { x: 23, y: 387, xvel: -13, yvel: 13, continue_timer: 9 };
    let mut pa = Player { y: 120, points: 4 };
    let mut pb = Player { y: 600, points: 2 };
    let c = b.update(1000, &mut pa, &mut pb);
    assert_eq!(c, Collision::Miss);
    assert_eq!(b, Ball { x: 100, y: 100, xvel: 13, yvel: 13, continue_timer: 1000 });
    assert_eq!(pa, Player { y: 100, points: 4 });
    assert_eq!(pb, Player { y: 100, points: 2 });
}

#[test]
fn right_hit_rebounds_and_scores() {
    let mut b = Ball { x: 1550, y: 400, xvel: 13, yvel: 13, continue_timer: 9 };
    let mut pa = Player { y: 0, points: 0 };
    let mut pb = Player { y: 300, points: 7 };
    let c = b.update(1000, &mut pa, &mut pb);
    assert_eq!(c, Collision::Hit);
    assert_eq!((b.x, b.y), (1563, 413));
    assert_eq!((b.xvel, b.yvel), (-13, 13));
    assert_eq!(pb.points, 8);
    assert_eq!(pa, Player { y: 0, points: 0 });
}

#[test]
fn right_miss_resets_the_round() {
    let mut b = Ball { x: 1550, y: 900, xvel: 13, yvel: 13, continue_timer: 9 };
    let mut pa = Player { y: 0, points: 3 };
    let mut pb = Player { y: 300, points: 7 };
    let c = b.update(2000, &mut pa, &mut pb);
    assert_eq!(c, Collision::Miss);
    assert_eq!(b, Ball { x: 100, y: 100, xvel: 13, yvel: 13, continue_timer: 2000 });
    assert_eq!((pa.y, pb.y), (100, 100));
    assert_eq!((pa.points, pb.points), (3, 7));
}

#[test]
fn top_wall_bounce_flips_y_velocity_without_clamping() {
    // at (400, -5) pixels heading up: advances past the wall to -11.5 pixels
    let mut b = Ball { x: 800, y: -10, xvel: 13, yvel: -13, continue_timer: 0 };
    let mut pa = Player { y: 0, points: 0 };
    let mut pb = Player { y: 0, points: 0 };
    let c = b.update(1000, &mut pa, &mut pb);
    assert_eq!(c, Collision::Nothing);
    assert_eq!((b.x, b.y), (813, -23), "the overshoot is kept for one frame");
    assert_eq!((b.xvel, b.yvel), (13, 13));
    assert_eq!((pa.points, pb.points), (0, 0));
}

#[test]
fn bottom_wall_bounce_flips_y_velocity() {
    let mut b = Ball { x: 800, y: 1175, xvel: 13, yvel: 13, continue_timer: 0 };
    let mut pa = Player { y: 0, points: 0 };
    let mut pb = Player { y: 0, points: 0 };
    let c = b.update(1000, &mut pa, &mut pb);
    assert_eq!(c, Collision::Nothing);
    assert_eq!(b.y, 1188);
    assert_eq!(b.yvel, -13);
}

#[test]
fn frozen_frames_hold_everything_still() {
    let mut g = Game {
        player_a: Player { y: 200, points: 1 },
        player_b: Player { y: 300, points: 2 },
        ball: Ball { x: 500, y: 500, xvel: 13, yvel: 13, continue_timer: 1000 },
    };
    let before = g;
    // 1200 and 1399 are within 400ms of the reset at 1000
    assert_eq!(g.update(1200, true, false, false, true), Collision::Nothing);
    assert_eq!(g, before);
    assert_eq!(g.update(1399, true, false, false, true), Collision::Nothing);
    assert_eq!(g, before);
    // the first frame at 400ms resumes: paddles move, the ball advances
    assert_eq!(g.update(1400, true, false, false, true), Collision::Nothing);
    assert_eq!(g.player_a.y, 180);
    assert_eq!(g.player_b.y, 320);
    assert_eq!((g.ball.x, g.ball.y), (513, 513));
}

#[test]
fn up_wins_when_both_keys_are_held() {
    let mut g = Game {
        player_a: Player { y: 200, points: 0 },
        player_b: Player { y: 200, points: 0 },
        ball: Ball { x: 500, y: 500, xvel: 13, yvel: 13, continue_timer: 0 },
    };
    g.update(1000, true, true, true, true);
    assert_eq!(g.player_a.y, 180);
    assert_eq!(g.player_b.y, 180);
}

#[test]
fn no_keys_leave_paddles_alone() {
    let mut g = Game {
        player_a: Player { y: 200, points: 0 },
        player_b: Player { y: 300, points: 0 },
        ball: Ball { x: 500, y: 500, xvel: 13, yvel: 13, continue_timer: 0 },
    };
    g.update(1000, false, false, false, false);
    assert_eq!(g.player_a.y, 200);
    assert_eq!(g.player_b.y, 300);
}

#[test]
fn long_run_keeps_invariants_and_scores_monotone() {
    let mut g = Game::new(0);
    let mut last_a = 0u64;
    let mut last_b = 0u64;
    let mut hits = 0u64;
    let mut misses = 0u64;
    for frame in 0..5000u64 {
        let now = frame * 16;
        // wiggle both paddles in different rhythms
        let c = g.update(now, frame % 7 < 3, frame % 7 >= 3, frame % 5 < 2, frame % 5 >= 2);
        assert!(0 <= g.player_a.y && g.player_a.y <= 1100);
        assert!(0 <= g.player_b.y && g.player_b.y <= 1100);
        assert!(g.ball.xvel == 13 || g.ball.xvel == -13);
        assert!(g.ball.yvel == 13 || g.ball.yvel == -13);
        assert!(-13 <= g.ball.y && g.ball.y <= 1193);
        assert!(g.player_a.points >= last_a && g.player_a.points <= last_a + 1);
        assert!(g.player_b.points >= last_b && g.player_b.points <= last_b + 1);
        match c {
            Collision::Hit => {
                hits += 1;
                assert_eq!(g.player_a.points + g.player_b.points, last_a + last_b + 1);
            }
            Collision::Miss => {
                misses += 1;
                assert_eq!(g.ball, Ball::new(now));
                assert_eq!((g.player_a.y, g.player_b.y), (100, 100));
            }
            Collision::Nothing => {
                assert_eq!((g.player_a.points, g.player_b.points), (last_a, last_b));
            }
        }
        last_a = g.player_a.points;
        last_b = g.player_b.points;
    }
    assert_eq!(g.player_a.points + g.player_b.points, hits);
    assert!(hits + misses > 0, "five thousand frames reach the paddle zones");
}
