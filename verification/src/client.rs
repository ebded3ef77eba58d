//! The client's display state: a flattened projection of the host's world,
//! kept eventually consistent by applying each incoming message verbatim.
//!
//! A client never simulates. It holds the circles and edges it was last
//! told about, its local copy of the arbiter's externally visible fields,
//! and a celebration timer mirroring the host's pause.

use vstd::prelude::*;
use crate::arbiter::Score;
use crate::constants::{BALL_RADIUS, RESET_TIME};
use crate::entities::{Circle, Edge};
use crate::protocol::Message;

verus! {

/// A client's view of the match: display state only.
pub struct ClientGame {
    /// The static pitch boundary, from the init snapshot.
    pub edges: Vec<Edge>,
    /// The goal posts, from the init snapshot.
    pub goal_posts: Vec<Circle>,
    /// Every player's circle, from the latest update.
    pub players: Vec<Circle>,
    /// The ball's circle, from the latest update.
    pub ball: Circle,
    /// The score as last announced.
    pub score: Score,
    /// Red's goal is being celebrated.
    pub red_scored: bool,
    /// Blue's goal is being celebrated.
    pub blue_scored: bool,
    /// The host announced the end of the match.
    pub game_ended: bool,
    /// Ticks left of the local celebration, mirroring the host's pause.
    pub timer: u32,
}

/// The circle a client shows for the ball before any update arrived.
pub open spec fn placeholder_ball() -> Circle {
    Circle { x: 0, y: 0, radius: BALL_RADIUS, red: false, player_number: -1i64 }
}

impl ClientGame {
    /// A fresh client view: nothing received yet.
    pub fn new() -> (r: ClientGame)
        ensures
            r.edges@ == Seq::<Edge>::empty(),
            r.goal_posts@ == Seq::<Circle>::empty(),
            r.players@ == Seq::<Circle>::empty(),
            r.ball == placeholder_ball(),
            r.score == (Score { red_score: 0, blue_score: 0 }),
            !r.red_scored,
            !r.blue_scored,
            !r.game_ended,
            r.timer == 0,
    {
        ClientGame {
            edges: Vec::new(),
            goal_posts: Vec::new(),
            players: Vec::new(),
            ball: Circle::new(0, 0, BALL_RADIUS, false, -1),
            score: Score::new(0, 0),
            red_scored: false,
            blue_scored: false,
            game_ended: false,
            timer: 0,
        }
    }

    /// Applies one host message to the display state: an init snapshot
    /// replaces all collections, a routine update replaces players and
    /// ball, a goal announcement updates score and celebration (starting
    /// the local celebration timer), and the end-of-match message sets the
    /// terminal flag. Nothing else changes in each case.
    pub fn apply_message(&mut self, message: Message)
        ensures
            message matches Message::GameInit { edges, goal_posts, players, ball } ==> {
                &&& final(self).edges == edges
                &&& final(self).goal_posts == goal_posts
                &&& final(self).players == players
                &&& final(self).ball == ball
                &&& final(self).score == old(self).score
                &&& final(self).red_scored == old(self).red_scored
                &&& final(self).blue_scored == old(self).blue_scored
                &&& final(self).game_ended == old(self).game_ended
                &&& final(self).timer == old(self).timer
            },
            message matches Message::GameState { players, ball } ==> {
                &&& final(self).players == players
                &&& final(self).ball == ball
                &&& final(self).edges == old(self).edges
                &&& final(self).goal_posts == old(self).goal_posts
                &&& final(self).score == old(self).score
                &&& final(self).red_scored == old(self).red_scored
                &&& final(self).blue_scored == old(self).blue_scored
                &&& final(self).game_ended == old(self).game_ended
                &&& final(self).timer == old(self).timer
            },
            message matches Message::GoalScored { red_scored, score } ==> {
                &&& final(self).score == score
                &&& final(self).red_scored == red_scored
                &&& final(self).blue_scored == !red_scored
                &&& final(self).timer == RESET_TIME
                &&& final(self).edges == old(self).edges
                &&& final(self).goal_posts == old(self).goal_posts
                &&& final(self).players == old(self).players
                &&& final(self).ball == old(self).ball
                &&& final(self).game_ended == old(self).game_ended
            },
            message matches Message::GameEnded ==> {
                &&& final(self).game_ended
                &&& final(self).edges == old(self).edges
                &&& final(self).goal_posts == old(self).goal_posts
                &&& final(self).players == old(self).players
                &&& final(self).ball == old(self).ball
                &&& final(self).score == old(self).score
                &&& final(self).red_scored == old(self).red_scored
                &&& final(self).blue_scored == old(self).blue_scored
                &&& final(self).timer == old(self).timer
            },
    {
        match message {
            Message::GameInit { edges, goal_posts, players, ball } => {
                self.edges = edges;
                self.goal_posts = goal_posts;
                self.players = players;
                self.ball = ball;
            },
            Message::GameState { players, ball } => {
                self.players = players;
                self.ball = ball;
            },
            Message::GoalScored { red_scored, score } => {
                self.score = score;
                self.red_scored = red_scored;
                self.blue_scored = !red_scored;
                self.timer = RESET_TIME;
            },
            Message::GameEnded => {
                self.game_ended = true;
            },
        }
    }

    /// One client tick: the celebration timer counts down, and on expiry
    /// the celebration flags come down. (Sending the locally captured input
    /// to the host happens in the surrounding application.)
    pub fn tick(&mut self)
        ensures
            old(self).timer == 0 ==> *final(self) == (ClientGame {
                red_scored: false,
                blue_scored: false,
                ..*old(self)
            }),
            old(self).timer > 0 ==> *final(self) == (ClientGame {
                timer: (old(self).timer - 1) as u32,
                ..*old(self)
            }),
    {
        if self.timer == 0 {
            self.red_scored = false;
            self.blue_scored = false;
        } else {
            self.timer = self.timer - 1;
        }
    }

    /// Whether the host announced the end of the match.
    pub fn ended(&self) -> (r: bool)
        ensures
            r == self.game_ended,
    {
        self.game_ended
    }
}

} // verus!
