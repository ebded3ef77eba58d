//! The laws of the simulation, stated and proved over the spec-level
//! transitions of [`crate::host`]: the speed clamp, the shoot
//! edge-triggering, goal monotonicity, win termination, and reset symmetry.

use vstd::prelude::*;
use crate::arbiter::Arbiter;
use crate::constants::{
    BALL_TOP_SPEED, MAX_GOALS, PLAYER_TOP_SPEED, RESET_TIME, SHOOTING_DISTANCE, STADIUM_CENTER_X,
};
use crate::entities::{ball_at_kickoff, kickoff_x, kickoff_y, Ball, Player};
use crate::host::{
    ball_speed_clamped, check_timer_spec, goal_for_blue, goal_for_red, impulse_step,
    integrate_ball, integrate_player, player_step, roster_step_prefix, shoot_step, tick_spec,
};
use crate::math::{
    lemma_clamp_vel_bound, lemma_damp_speed_bound, lemma_scaled_speed_bound, lemma_sqrt_ceil,
    lemma_speed_component_bound, speed_sq, sqrt_ceil,
};

verus! {

// ---------------------------------------------------------------------------
// Speed bounds through each phase of a tick
// ---------------------------------------------------------------------------

proof fn lemma_shoot_step_wf(p: Player, ball: Ball)
    requires
        p.wf(),
        ball.wf(),
    ensures
        shoot_step(p, ball).0.wf(),
        shoot_step(p, ball).1.wf(),
{
    if p.current_input.shoot && !p.last_tick_shot {
        let dx = ball.x - p.x;
        let dy = ball.y - p.y;
        if 0 < speed_sq(dx as int, dy as int) <= SHOOTING_DISTANCE * SHOOTING_DISTANCE {
            let s2 = speed_sq(dx as int, dy as int);
            lemma_sqrt_ceil(s2 as nat);
            let d = sqrt_ceil(s2 as nat) as int;
            lemma_scaled_speed_bound(dx as int, dy as int, BALL_TOP_SPEED as int, d);
            let kv = crate::math::kick_vel(dx as int, dy as int, BALL_TOP_SPEED as int);
            lemma_speed_component_bound(kv.0, kv.1, BALL_TOP_SPEED as int);
        }
    }
}

proof fn lemma_player_step_wf(p: Player, ball: Ball)
    requires
        p.wf(),
        ball.wf(),
    ensures
        player_step(p, ball).0.wf(),
        player_step(p, ball).1.wf(),
{
    lemma_shoot_step_wf(p, ball);
    let p1 = shoot_step(p, ball).0;
    lemma_speed_component_bound(p1.vx as int, p1.vy as int, PLAYER_TOP_SPEED as int);
    let p2 = impulse_step(p1);
    lemma_clamp_vel_bound(p2.vx as int, p2.vy as int, PLAYER_TOP_SPEED as int);
    let cv = crate::math::clamp_vel(p2.vx as int, p2.vy as int, PLAYER_TOP_SPEED as int);
    lemma_speed_component_bound(cv.0, cv.1, PLAYER_TOP_SPEED as int);
}

proof fn lemma_roster_prefix_wf(ps: Seq<Player>, ball: Ball, n: int)
    requires
        0 <= n <= ps.len(),
        forall|i: int| 0 <= i < ps.len() ==> (#[trigger] ps[i]).wf(),
        ball.wf(),
    ensures
        roster_step_prefix(ps, ball, n).0.len() == ps.len(),
        forall|i: int|
            0 <= i < ps.len() ==> (#[trigger] roster_step_prefix(ps, ball, n).0[i]).wf(),
        roster_step_prefix(ps, ball, n).1.wf(),
    decreases n,
{
    if n > 0 {
        lemma_roster_prefix_wf(ps, ball, n - 1);
        let prev = roster_step_prefix(ps, ball, n - 1);
        lemma_player_step_wf(prev.0[n - 1], prev.1);
    }
}

proof fn lemma_ball_speed_clamped_wf(b: Ball)
    requires
        0 <= b.x <= crate::constants::STADIUM_WIDTH,
        0 <= b.y <= crate::constants::STADIUM_HEIGHT,
    ensures
        ball_speed_clamped(b).wf(),
{
    lemma_clamp_vel_bound(b.vx as int, b.vy as int, BALL_TOP_SPEED as int);
    let cv = crate::math::clamp_vel(b.vx as int, b.vy as int, BALL_TOP_SPEED as int);
    lemma_speed_component_bound(cv.0, cv.1, BALL_TOP_SPEED as int);
}

proof fn lemma_integrate_player_wf(p: Player)
    requires
        p.wf(),
    ensures
        integrate_player(p).wf(),
{
    lemma_speed_component_bound(p.vx as int, p.vy as int, PLAYER_TOP_SPEED as int);
    lemma_damp_speed_bound(p.vx as int, p.vy as int, crate::constants::PLAYER_DAMPING as int,
        PLAYER_TOP_SPEED as int);
    let vx = crate::math::damp_vel(p.vx as int, crate::constants::PLAYER_DAMPING as int);
    let vy = crate::math::damp_vel(p.vy as int, crate::constants::PLAYER_DAMPING as int);
    lemma_speed_component_bound(vx, vy, PLAYER_TOP_SPEED as int);
}

proof fn lemma_integrate_ball_wf(b: Ball)
    requires
        b.wf(),
    ensures
        integrate_ball(b).wf(),
{
    lemma_speed_component_bound(b.vx as int, b.vy as int, BALL_TOP_SPEED as int);
    lemma_damp_speed_bound(b.vx as int, b.vy as int, crate::constants::BALL_DAMPING as int,
        BALL_TOP_SPEED as int);
    let vx = crate::math::damp_vel(b.vx as int, crate::constants::BALL_DAMPING as int);
    let vy = crate::math::damp_vel(b.vy as int, crate::constants::BALL_DAMPING as int);
    lemma_speed_component_bound(vx, vy, BALL_TOP_SPEED as int);
}

/// The speed clamp: after any tick, every player's squared speed is within
/// the player limit and the ball's is within the ball limit, regardless of
/// the inputs and kicks of that tick.
pub proof fn lemma_tick_speed_clamp(roster: Seq<Player>, host: Player, ball: Ball)
    requires
        forall|i: int| 0 <= i < roster.len() ==> (#[trigger] roster[i]).wf(),
        host.wf(),
        ball.wf(),
    ensures
        ({
            let t = tick_spec(roster, host, ball);
            &&& t.0.len() == roster.len()
            &&& forall|i: int|
                0 <= i < t.0.len() ==> speed_sq((#[trigger] t.0[i]).vx as int, t.0[i].vy as int)
                    <= PLAYER_TOP_SPEED * PLAYER_TOP_SPEED
            &&& speed_sq(t.1.vx as int, t.1.vy as int) <= PLAYER_TOP_SPEED * PLAYER_TOP_SPEED
            &&& speed_sq(t.2.vx as int, t.2.vy as int) <= BALL_TOP_SPEED * BALL_TOP_SPEED
        }),
{
    lemma_tick_wf(roster, host, ball);
    lemma_roster_prefix_wf(roster, ball, roster.len() as int);
}

// ---------------------------------------------------------------------------
// Shoot edge-triggering
// ---------------------------------------------------------------------------

/// A solo game (the host alone with the ball) after `n` ticks.
pub open spec fn solo_ticks(host: Player, ball: Ball, n: nat) -> (Player, Ball)
    decreases n,
{
    if n == 0 {
        (host, ball)
    } else {
        let prev = solo_ticks(host, ball, (n - 1) as nat);
        let t = tick_spec(Seq::empty(), prev.0, prev.1);
        (t.1, t.2)
    }
}

/// The shoot action fires on this tick: a fresh press within shooting
/// distance of the ball (and off its exact centre), which overwrites the
/// ball's velocity.
pub open spec fn kick_fires(p: Player, ball: Ball) -> bool {
    &&& p.current_input.shoot
    &&& !p.last_tick_shot
    &&& 0 < speed_sq(ball.x - p.x, ball.y - p.y) <= SHOOTING_DISTANCE * SHOOTING_DISTANCE
}

/// How many of the first `n` solo ticks fired a kick.
pub open spec fn solo_kick_count(host: Player, ball: Ball, n: nat) -> int
    decreases n,
{
    if n == 0 {
        0
    } else {
        let prev = solo_ticks(host, ball, (n - 1) as nat);
        solo_kick_count(host, ball, (n - 1) as nat) + if kick_fires(prev.0, prev.1) {
            1int
        } else {
            0int
        }
    }
}

/// What a firing kick does: it overwrites the ball's velocity with the
/// full-speed kick along the player-to-ball direction; a held or absent
/// shoot leaves the ball alone.
pub proof fn lemma_kick_overwrites(p: Player, ball: Ball)
    ensures
        kick_fires(p, ball) ==> ({
            let kv = crate::math::kick_vel(ball.x - p.x, ball.y - p.y, BALL_TOP_SPEED as int);
            shoot_step(p, ball).1 == (Ball { vx: kv.0 as i64, vy: kv.1 as i64, ..ball })
        }),
        p.current_input.shoot && p.last_tick_shot ==> shoot_step(p, ball).1 == ball,
        !p.current_input.shoot ==> shoot_step(p, ball).1 == ball,
{
}

/// Ticking never changes a player's stored input, and with shoot held the
/// "already shot" flag is up after every tick.
proof fn lemma_solo_flag_sticky(host: Player, ball: Ball, n: nat)
    requires
        host.current_input.shoot,
        n >= 1,
    ensures
        solo_ticks(host, ball, n).0.current_input == host.current_input,
        solo_ticks(host, ball, n).0.last_tick_shot,
    decreases n,
{
    reveal_with_fuel(solo_ticks, 2);
    if n > 1 {
        lemma_solo_flag_sticky(host, ball, (n - 1) as nat);
    }
}

/// Shoot edge-triggering: holding `shoot` across `n` consecutive ticks
/// fires exactly one kick — on the first tick if the player starts within
/// shooting distance with the flag down, and none at all otherwise.
/// Releasing lowers the flag (see [`lemma_shoot_release_resets`]), after
/// which a new press can fire exactly one more.
pub proof fn lemma_shoot_edge_trigger(host: Player, ball: Ball, n: nat)
    requires
        host.current_input.shoot,
        n >= 1,
    ensures
        solo_kick_count(host, ball, n) == if kick_fires(host, ball) {
            1int
        } else {
            0int
        },
    decreases n,
{
    reveal_with_fuel(solo_ticks, 2);
    reveal_with_fuel(solo_kick_count, 2);
    if n > 1 {
        lemma_shoot_edge_trigger(host, ball, (n - 1) as nat);
        lemma_solo_flag_sticky(host, ball, (n - 1) as nat);
    }
}

/// Releasing the shoot key fires nothing and lowers the "already shot"
/// flag, re-arming the edge detector for the next press.
pub proof fn lemma_shoot_release_resets(host: Player, ball: Ball)
    requires
        !host.current_input.shoot,
    ensures
        !kick_fires(host, ball),
        !solo_ticks(host, ball, 1).0.last_tick_shot,
        solo_ticks(host, ball, 1).1.vx == integrate_ball(ball_speed_clamped(ball)).vx,
        solo_ticks(host, ball, 1).1.vy == integrate_ball(ball_speed_clamped(ball)).vy,
{
    reveal_with_fuel(solo_ticks, 2);
}

// ---------------------------------------------------------------------------
// Goal monotonicity
// ---------------------------------------------------------------------------

/// A goal event: the match is being played and the ball is beyond a goal
/// line, so the coming match-state check credits a team.
pub open spec fn goal_event(ball: Ball, a: Arbiter) -> bool {
    a.playing() && (goal_for_blue(ball) || goal_for_red(ball))
}

/// Goal monotonicity: one match-state check never decreases either team's
/// score, and it raises the two scores' sum by exactly one on a goal event
/// and leaves it alone otherwise — so the sum counts the completed goal
/// events. The simulation tick never touches the arbiter at all.
pub proof fn lemma_goal_monotonicity(roster: Seq<Player>, host: Player, ball: Ball, a: Arbiter)
    requires
        a.wf(),
    ensures
        ({
            let c = check_timer_spec(roster, host, ball, a).3;
            &&& c.red_score >= a.red_score
            &&& c.blue_score >= a.blue_score
            &&& c.red_score + c.blue_score == a.red_score + a.blue_score + if goal_event(ball, a) {
                1int
            } else {
                0int
            }
        }),
{
}

/// The match-state check preserves the arbiter's consistency.
proof fn lemma_check_timer_arbiter_wf(roster: Seq<Player>, host: Player, ball: Ball, a: Arbiter)
    requires
        a.wf(),
    ensures
        check_timer_spec(roster, host, ball, a).3.wf(),
{
}

// ---------------------------------------------------------------------------
// Win termination
// ---------------------------------------------------------------------------

/// One full driver pass: the match-state check, then the simulation tick
/// (which never touches the arbiter).
pub open spec fn driver_step(roster: Seq<Player>, host: Player, ball: Ball, a: Arbiter) -> (
    Seq<Player>,
    Player,
    Ball,
    Arbiter,
) {
    let c = check_timer_spec(roster, host, ball, a);
    let t = tick_spec(c.0, c.1, c.2);
    (t.0, t.1, t.2, c.3)
}

/// `n` full driver passes.
pub open spec fn driver_steps(roster: Seq<Player>, host: Player, ball: Ball, a: Arbiter, n: nat)
    -> (Seq<Player>, Player, Ball, Arbiter)
    decreases n,
{
    if n == 0 {
        (roster, host, ball, a)
    } else {
        let prev = driver_steps(roster, host, ball, a, (n - 1) as nat);
        driver_step(prev.0, prev.1, prev.2, prev.3)
    }
}

/// How many of the first `n` driver passes began with a goal event.
pub open spec fn driver_goal_events(roster: Seq<Player>, host: Player, ball: Ball, a: Arbiter,
    n: nat) -> int
    decreases n,
{
    if n == 0 {
        0
    } else {
        let prev = driver_steps(roster, host, ball, a, (n - 1) as nat);
        driver_goal_events(roster, host, ball, a, (n - 1) as nat) + if goal_event(prev.2, prev.3) {
            1int
        } else {
            0int
        }
    }
}

/// Goal monotonicity over a whole run: across any number of driver passes
/// neither score ever decreases, and the scores' sum equals the initial sum
/// plus the number of goal events completed on the way.
pub proof fn lemma_goal_count(roster: Seq<Player>, host: Player, ball: Ball, a: Arbiter, n: nat)
    requires
        a.wf(),
    ensures
        driver_steps(roster, host, ball, a, n).3.wf(),
        driver_steps(roster, host, ball, a, n).3.red_score >= a.red_score,
        driver_steps(roster, host, ball, a, n).3.blue_score >= a.blue_score,
        driver_steps(roster, host, ball, a, n).3.red_score + driver_steps(roster, host, ball, a,
            n).3.blue_score == a.red_score + a.blue_score + driver_goal_events(roster, host, ball,
            a, n),
    decreases n,
{
    if n > 0 {
        lemma_goal_count(roster, host, ball, a, (n - 1) as nat);
        let prev = driver_steps(roster, host, ball, a, (n - 1) as nat);
        lemma_goal_monotonicity(prev.0, prev.1, prev.2, prev.3);
        lemma_check_timer_arbiter_wf(prev.0, prev.1, prev.2, prev.3);
    }
}

/// Well-formedness of a whole world snapshot: every body inside the stadium
/// and within its speed limit, and the arbiter consistent.
pub open spec fn world_wf(roster: Seq<Player>, host: Player, ball: Ball, a: Arbiter) -> bool {
    &&& forall|i: int| 0 <= i < roster.len() ==> (#[trigger] roster[i]).wf()
    &&& host.wf()
    &&& ball.wf()
    &&& a.wf()
}

/// The match-state check preserves well-formedness of the whole world.
proof fn lemma_check_timer_wf(roster: Seq<Player>, host: Player, ball: Ball, a: Arbiter)
    requires
        world_wf(roster, host, ball, a),
    ensures
        ({
            let c = check_timer_spec(roster, host, ball, a);
            world_wf(c.0, c.1, c.2, c.3)
        }),
{
    lemma_check_timer_arbiter_wf(roster, host, ball, a);
    let c = check_timer_spec(roster, host, ball, a);
    if !a.game_ended && a.reset_timer == 1 {
        assert forall|i: int| 0 <= i < c.0.len() implies (#[trigger] c.0[i]).wf() by {
            assert(c.0[i] == roster[i].reset_spec(0, 0));
        }
    }
}

/// The simulation tick preserves well-formedness of the whole world; the
/// arbiter it does not touch.
proof fn lemma_tick_wf(roster: Seq<Player>, host: Player, ball: Ball)
    requires
        forall|i: int| 0 <= i < roster.len() ==> (#[trigger] roster[i]).wf(),
        host.wf(),
        ball.wf(),
    ensures
        ({
            let t = tick_spec(roster, host, ball);
            &&& forall|i: int| 0 <= i < t.0.len() ==> (#[trigger] t.0[i]).wf()
            &&& t.1.wf()
            &&& t.2.wf()
        }),
{
    lemma_roster_prefix_wf(roster, ball, roster.len() as int);
    let rp = roster_step_prefix(roster, ball, roster.len() as int);
    lemma_player_step_wf(host, rp.1);
    let hb = player_step(host, rp.1);
    lemma_ball_speed_clamped_wf(hb.1);
    lemma_integrate_ball_wf(ball_speed_clamped(hb.1));
    lemma_integrate_player_wf(hb.0);
    let t = tick_spec(roster, host, ball);
    assert forall|i: int| 0 <= i < t.0.len() implies (#[trigger] t.0[i]).wf() by {
        assert(t.0[i] == integrate_player(rp.0[i]));
        lemma_integrate_player_wf(rp.0[i]);
    }
}

/// The global invariant: however many driver passes run, every body stays
/// inside the stadium and within its speed limit, and the arbiter stays
/// consistent.
pub proof fn lemma_driver_preserves_wf(roster: Seq<Player>, host: Player, ball: Ball, a: Arbiter,
    n: nat)
    requires
        world_wf(roster, host, ball, a),
    ensures
        ({
            let s = driver_steps(roster, host, ball, a, n);
            world_wf(s.0, s.1, s.2, s.3)
        }),
    decreases n,
{
    if n > 0 {
        lemma_driver_preserves_wf(roster, host, ball, a, (n - 1) as nat);
        let prev = driver_steps(roster, host, ball, a, (n - 1) as nat);
        lemma_check_timer_wf(prev.0, prev.1, prev.2, prev.3);
        let c = check_timer_spec(prev.0, prev.1, prev.2, prev.3);
        lemma_tick_wf(c.0, c.1, c.2);
    }
}

/// Win termination, first half: when the pause that follows a goal expires
/// with a team at the goal target, the match-state check deterministically
/// ends the match.
pub proof fn lemma_win_termination(roster: Seq<Player>, host: Player, ball: Ball, a: Arbiter)
    requires
        !a.game_ended,
        a.reset_timer == 1,
        a.red_score == MAX_GOALS || a.blue_score == MAX_GOALS,
    ensures
        check_timer_spec(roster, host, ball, a).3.game_ended,
{
}

/// Stepping first and then iterating is iterating one pass longer.
proof fn lemma_driver_steps_shift(roster: Seq<Player>, host: Player, ball: Ball, a: Arbiter,
    n: nat)
    requires
        n >= 1,
    ensures
        ({
            let s1 = driver_step(roster, host, ball, a);
            driver_steps(roster, host, ball, a, n) == driver_steps(s1.0, s1.1, s1.2, s1.3,
                (n - 1) as nat)
        }),
    decreases n,
{
    reveal_with_fuel(driver_steps, 2);
    if n > 1 {
        lemma_driver_steps_shift(roster, host, ball, a, (n - 1) as nat);
    }
}

/// Win termination, in full: once a pause is running with a team at the
/// goal target, the match is ended after at most `reset_timer` further
/// driver passes, whatever the players and the ball do meanwhile.
pub proof fn lemma_pause_drives_to_ended(roster: Seq<Player>, host: Player, ball: Ball,
    a: Arbiter, n: nat)
    requires
        a.wf(),
        !a.game_ended,
        a.reset_timer >= 1,
        a.red_score == MAX_GOALS || a.blue_score == MAX_GOALS,
        n >= a.reset_timer,
    ensures
        driver_steps(roster, host, ball, a, n).3.game_ended,
    decreases n,
{
    let s1 = driver_step(roster, host, ball, a);
    lemma_driver_steps_shift(roster, host, ball, a, n);
    if a.reset_timer == 1 {
        lemma_ended_terminal(s1.0, s1.1, s1.2, s1.3, (n - 1) as nat);
    } else {
        lemma_check_timer_arbiter_wf(roster, host, ball, a);
        lemma_pause_drives_to_ended(s1.0, s1.1, s1.2, s1.3, (n - 1) as nat);
    }
}

/// Win termination, end to end: a goal that brings a team to the goal
/// target starts the pause, and the pause deterministically ends the match.
pub proof fn lemma_winning_goal_ends_match(roster: Seq<Player>, host: Player, ball: Ball,
    a: Arbiter, n: nat)
    requires
        a.wf(),
        a.playing(),
        goal_for_blue(ball) || goal_for_red(ball),
        goal_for_blue(ball) ==> a.blue_score == MAX_GOALS - 1,
        !goal_for_blue(ball) ==> a.red_score == MAX_GOALS - 1,
        n >= 1 + RESET_TIME,
    ensures
        driver_steps(roster, host, ball, a, n).3.game_ended,
{
    let s1 = driver_step(roster, host, ball, a);
    lemma_driver_steps_shift(roster, host, ball, a, n);
    lemma_check_timer_arbiter_wf(roster, host, ball, a);
    lemma_pause_drives_to_ended(s1.0, s1.1, s1.2, s1.3, (n - 1) as nat);
}

/// Win termination, second half: `Ended` is terminal. However many driver
/// passes follow, the arbiter — scores included — never changes again.
pub proof fn lemma_ended_terminal(roster: Seq<Player>, host: Player, ball: Ball, a: Arbiter,
    n: nat)
    requires
        a.game_ended,
    ensures
        driver_steps(roster, host, ball, a, n).3 == a,
    decreases n,
{
    if n > 0 {
        lemma_ended_terminal(roster, host, ball, a, (n - 1) as nat);
    }
}

// ---------------------------------------------------------------------------
// Reset symmetry
// ---------------------------------------------------------------------------

/// Reset symmetry: when a goal pause expires without ending the match, play
/// resumes with every player at rest on its team's kickoff spot and the
/// ball at rest at the stadium centre, wherever the bodies were when the
/// goal occurred; the two teams' kickoff spots mirror each other about the
/// stadium's vertical midline.
pub proof fn lemma_reset_symmetry(roster: Seq<Player>, host: Player, ball: Ball, a: Arbiter)
    requires
        !a.game_ended,
        a.reset_timer == 1,
        a.red_score < MAX_GOALS,
        a.blue_score < MAX_GOALS,
    ensures
        ({
            let c = check_timer_spec(roster, host, ball, a);
            &&& !c.3.game_ended
            &&& c.3.reset_timer == 0
            &&& !c.3.red_scored && !c.3.blue_scored
            &&& c.2 == ball_at_kickoff()
            &&& c.1 == host.reset_spec(0, 0)
            &&& c.0.len() == roster.len()
            &&& forall|i: int|
                0 <= i < roster.len() ==> (#[trigger] c.0[i]) == roster[i].reset_spec(0, 0)
            &&& forall|i: int|
                0 <= i < roster.len() ==> (#[trigger] c.0[i]).x == kickoff_x(roster[i].red)
                    && c.0[i].y == kickoff_y() && c.0[i].vx == 0 && c.0[i].vy == 0
        }),
        kickoff_x(true) - STADIUM_CENTER_X == STADIUM_CENTER_X - kickoff_x(false),
{
}

} // verus!
