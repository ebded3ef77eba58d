//! The match-state record: per-team scores, who just scored, the pause
//! countdown after a goal, the pending score announcement, and the terminal
//! "match ended" flag.
//!
//! The match is always in exactly one of three states:
//! playing (`reset_timer == 0`, not ended), goal pause (`reset_timer > 0`),
//! or ended. Once ended, nothing mutates it again.

use vstd::prelude::*;
use crate::constants::MAX_GOALS;

verus! {

/// The two teams' goal counts, as sent on the wire.
#[derive(Clone, Copy, Debug, PartialEq, Eq, Structural)]
pub struct Score {
    pub red_score: u32,
    pub blue_score: u32,
}

impl Score {
    /// Builds a score pair.
    pub fn new(red_score: u32, blue_score: u32) -> (r: Score)
        ensures
            r == (Score { red_score, blue_score }),
    {
        Score { red_score, blue_score }
    }
}

/// A fresh match record: goalless, playing, nothing to announce.
pub open spec fn fresh_arbiter() -> Arbiter {
    Arbiter {
        red_scored: false,
        blue_scored: false,
        red_score: 0,
        blue_score: 0,
        send_score_message: false,
        reset_timer: 0,
        game_ended: false,
    }
}

/// The match-state record of the authoritative host.
#[derive(Clone, Copy, Debug, PartialEq, Eq, Structural)]
pub struct Arbiter {
    /// Red scored the goal the current pause celebrates.
    pub red_scored: bool,
    /// Blue scored the goal the current pause celebrates.
    pub blue_scored: bool,
    pub red_score: u32,
    pub blue_score: u32,
    /// The next broadcast must announce the goal instead of routine state.
    pub send_score_message: bool,
    /// Ticks left before play resumes after a goal; zero while playing.
    pub reset_timer: u32,
    /// Terminal: no score, timer or body mutation happens once set.
    pub game_ended: bool,
}

impl Arbiter {
    /// Internal consistency of the record: scores never pass the goal
    /// target, at most one team is celebrating, while the match is being
    /// played no celebration flag is up and no team has already won, and an
    /// ended match has no pause pending.
    pub open spec fn wf(self) -> bool {
        &&& self.red_score <= MAX_GOALS
        &&& self.blue_score <= MAX_GOALS
        &&& !(self.red_scored && self.blue_scored)
        &&& self.playing() ==> self.red_score < MAX_GOALS && self.blue_score < MAX_GOALS
            && !self.red_scored && !self.blue_scored
        &&& self.game_ended ==> self.reset_timer == 0
    }

    /// The match is being played: no pause is running and it has not ended.
    pub open spec fn playing(self) -> bool {
        !self.game_ended && self.reset_timer == 0
    }

    /// Play is paused after a goal, counting down to the kickoff reset.
    pub open spec fn in_goal_pause(self) -> bool {
        !self.game_ended && self.reset_timer > 0
    }

    /// The match reached its end; this state is terminal.
    pub open spec fn ended(self) -> bool {
        self.game_ended
    }

    /// A fresh match: goalless, playing, nothing to announce.
    pub fn new() -> (r: Arbiter)
        ensures
            r == fresh_arbiter(),
            r.wf(),
            r.playing(),
    {
        Arbiter {
            red_scored: false,
            blue_scored: false,
            red_score: 0,
            blue_score: 0,
            send_score_message: false,
            reset_timer: 0,
            game_ended: false,
        }
    }

    /// Credits red with a goal: one more red goal, red celebrates, and the
    /// announcement becomes pending. Nothing else changes.
    pub fn set_red_scored(&mut self)
        requires
            old(self).red_score < MAX_GOALS,
        ensures
            *final(self) == (Arbiter {
                red_scored: true,
                red_score: (old(self).red_score + 1) as u32,
                send_score_message: true,
                ..*old(self)
            }),
    {
        self.red_scored = true;
        self.red_score += 1;
        self.send_score_message = true;
    }

    /// Credits blue with a goal: one more blue goal, blue celebrates, and
    /// the announcement becomes pending. Nothing else changes.
    pub fn set_blue_scored(&mut self)
        requires
            old(self).blue_score < MAX_GOALS,
        ensures
            *final(self) == (Arbiter {
                blue_scored: true,
                blue_score: (old(self).blue_score + 1) as u32,
                send_score_message: true,
                ..*old(self)
            }),
    {
        self.blue_scored = true;
        self.blue_score += 1;
        self.send_score_message = true;
    }

    /// Ends the celebration: both "who scored" flags come down.
    pub fn reset_who_scored(&mut self)
        ensures
            *final(self) == (Arbiter {
                red_scored: false,
                blue_scored: false,
                ..*old(self)
            }),
    {
        self.blue_scored = false;
        self.red_scored = false;
    }
}

/// The three match states are mutually exclusive and cover every record:
/// a well-formed arbiter is playing, in a goal pause, or ended — never two
/// of these at once.
pub proof fn lemma_match_states_partition(a: Arbiter)
    ensures
        a.playing() || a.in_goal_pause() || a.ended(),
        !(a.playing() && a.in_goal_pause()),
        !(a.playing() && a.ended()),
        !(a.in_goal_pause() && a.ended()),
{
}

} // verus!
