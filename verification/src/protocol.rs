//! The host-to-client message schema. The host sends exactly one of these
//! per broadcast; clients apply them verbatim to their display state.
//! Client-to-host traffic is a bare `PlayerInput`.
//!
//! The transport frames these as opaque strings; only the logical shape is
//! defined here.

use vstd::prelude::*;
use crate::arbiter::Score;
use crate::entities::{Circle, Edge};

verus! {

/// One host-to-client message.
#[derive(Debug)]
pub enum Message {
    /// Full snapshot sent once to a newly connected peer: all static edges,
    /// the goal posts, the current players, and the ball.
    GameInit { edges: Vec<Edge>, goal_posts: Vec<Circle>, players: Vec<Circle>, ball: Circle },
    /// Routine per-tick update: every player's circle and the ball's.
    GameState { players: Vec<Circle>, ball: Circle },
    /// One-shot goal announcement, sent instead of the routine update on the
    /// tick after a goal: which team scored and the updated score.
    GoalScored { red_scored: bool, score: Score },
    /// One-shot terminal announcement: the match is over.
    GameEnded,
}

} // verus!
