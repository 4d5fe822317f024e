//! A two-player pong simulation: two paddles, one ball, score tracking, and a
//! short post-score freeze before play resumes.
//!
//! All coordinates and speeds are fixed-point integers in half-pixel units:
//! one screen pixel is two units, so the ball's diagonal speed of six and a
//! half pixels per frame is the exact integer 13. Rendering, input polling,
//! audio and the window loop live outside this library; it only needs a
//! millisecond timestamp and four key states per frame.

pub mod arena;
pub mod ball;
pub mod game;
pub mod player;

pub use ball::Ball;
pub use ball::Collision;
pub use game::Game;
pub use player::Player;
