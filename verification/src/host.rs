//! The authoritative host simulation: the one true copy of the world.
//!
//! Each driver pass performs, in order: the match-state check
//! ([`HostGame::check_timer`]), the simulation tick ([`HostGame::tick`]),
//! and the broadcast decision ([`HostGame::host_send_state`]). Remote peers
//! contribute inputs through [`HostGame::set_player_input`]; an external
//! rigid-body engine may refine body states between ticks through the
//! `sync_*` methods, which re-impose the stadium bounds and speed limits.
//!
//! Every transition is specified by a spec function over the roster, the
//! host's own player, the ball, and the arbiter, and each exec method is
//! proved equal to its spec.

use vstd::prelude::*;
use crate::arbiter::{fresh_arbiter, Arbiter, Score};
use crate::constants::{
    BALL_DAMPING, BALL_RADIUS, BALL_TOP_SPEED, MAX_GOALS, PITCH_LEFT_LINE, PITCH_LINE_WIDTH,
    PITCH_RIGHT_LINE, PLAYER_ACCELERATION, PLAYER_DAMPING, PLAYER_RADIUS, PLAYER_TOP_SPEED,
    RESET_TIME, SHOOTING_DISTANCE, STADIUM_HEIGHT, STADIUM_WIDTH,
};
use crate::entities::{ball_at_kickoff, kickoff_x, kickoff_y, Ball, Circle, Edge, Player};
use crate::geometry::{create_goals_posts, create_pitch_lines, goal_posts_layout,
    pitch_lines_layout};
use crate::input::{idle_input, PlayerInput};
use crate::math::{
    clamp_int, clamp_coord, clamp_vel, damp_component, damp_vel, kick_vel, kick_velocity,
    lemma_speed_component_bound, limit_speed, speed_sq,
};
use crate::protocol::Message;

verus! {

// ---------------------------------------------------------------------------
// Per-tick transition, as spec functions
// ---------------------------------------------------------------------------

/// Shoot edge-detection for one player: a fresh press (shoot held, flag
/// down) within shooting distance of the ball overwrites the ball's
/// velocity with a kick away from the player and raises the flag; holding
/// shoot keeps the flag up without another kick; releasing lowers it.
/// A player exactly on the ball's centre raises the flag but moves nothing,
/// there being no direction to kick along.
pub open spec fn shoot_step(p: Player, ball: Ball) -> (Player, Ball) {
    if p.current_input.shoot {
        if !p.last_tick_shot {
            let dx = ball.x - p.x;
            let dy = ball.y - p.y;
            let p2 = Player { last_tick_shot: true, ..p };
            if 0 < speed_sq(dx, dy) <= SHOOTING_DISTANCE * SHOOTING_DISTANCE {
                let kv = kick_vel(dx, dy, BALL_TOP_SPEED as int);
                (p2, Ball { vx: kv.0 as i64, vy: kv.1 as i64, ..ball })
            } else {
                (p2, ball)
            }
        } else {
            (p, ball)
        }
    } else {
        (Player { last_tick_shot: false, ..p }, ball)
    }
}

/// Directional input as velocity impulses: at most one impulse per axis,
/// `up` winning over `down` and `left` over `right`.
pub open spec fn impulse_step(p: Player) -> Player {
    let vy = if p.current_input.up {
        p.vy - PLAYER_ACCELERATION
    } else if p.current_input.down {
        p.vy + PLAYER_ACCELERATION
    } else {
        p.vy as int
    };
    let vx = if p.current_input.left {
        p.vx - PLAYER_ACCELERATION
    } else if p.current_input.right {
        p.vx + PLAYER_ACCELERATION
    } else {
        p.vx as int
    };
    Player { vx: vx as i64, vy: vy as i64, ..p }
}

/// The player's speed governor.
pub open spec fn clamp_step(p: Player) -> Player {
    let cv = clamp_vel(p.vx as int, p.vy as int, PLAYER_TOP_SPEED as int);
    Player { vx: cv.0 as i64, vy: cv.1 as i64, ..p }
}

/// Input application for one player: shoot edge-detection (possibly kicking
/// the ball), then impulses, then the speed governor.
pub open spec fn player_step(p: Player, ball: Ball) -> (Player, Ball) {
    let pb = shoot_step(p, ball);
    (clamp_step(impulse_step(pb.0)), pb.1)
}

/// Input application folded over the first `n` roster players, in order,
/// threading the ball through: a later player's kick overwrites an earlier
/// one's.
pub open spec fn roster_step_prefix(ps: Seq<Player>, ball: Ball, n: int) -> (Seq<Player>, Ball)
    decreases n,
{
    if n <= 0 {
        (ps, ball)
    } else {
        let prev = roster_step_prefix(ps, ball, n - 1);
        let st = player_step(prev.0[n - 1], prev.1);
        (prev.0.update(n - 1, st.0), st.1)
    }
}

/// The ball's speed governor.
pub open spec fn ball_speed_clamped(b: Ball) -> Ball {
    let cv = clamp_vel(b.vx as int, b.vy as int, BALL_TOP_SPEED as int);
    Ball { vx: cv.0 as i64, vy: cv.1 as i64, ..b }
}

/// One integration step for a player: damping, then movement, with the
/// stadium walls clamping the position.
pub open spec fn integrate_player(p: Player) -> Player {
    let vx = damp_vel(p.vx as int, PLAYER_DAMPING as int);
    let vy = damp_vel(p.vy as int, PLAYER_DAMPING as int);
    Player {
        x: clamp_int(p.x + vx, 0, STADIUM_WIDTH as int) as i64,
        y: clamp_int(p.y + vy, 0, STADIUM_HEIGHT as int) as i64,
        vx: vx as i64,
        vy: vy as i64,
        ..p
    }
}

/// One integration step for the ball: damping, then movement, with the
/// stadium walls clamping the position.
pub open spec fn integrate_ball(b: Ball) -> Ball {
    let vx = damp_vel(b.vx as int, BALL_DAMPING as int);
    let vy = damp_vel(b.vy as int, BALL_DAMPING as int);
    Ball {
        x: clamp_int(b.x + vx, 0, STADIUM_WIDTH as int) as i64,
        y: clamp_int(b.y + vy, 0, STADIUM_HEIGHT as int) as i64,
        vx: vx as i64,
        vy: vy as i64,
    }
}

/// One whole simulation tick: input application over the roster in order
/// and then the host's own player, the ball's speed governor, and one
/// integration step for every body.
pub open spec fn tick_spec(roster: Seq<Player>, host: Player, ball: Ball) -> (
    Seq<Player>,
    Player,
    Ball,
) {
    let rp = roster_step_prefix(roster, ball, roster.len() as int);
    let hb = player_step(host, rp.1);
    let b = ball_speed_clamped(hb.1);
    (
        rp.0.map_values(|p: Player| integrate_player(p)),
        integrate_player(hb.0),
        integrate_ball(b),
    )
}

// ---------------------------------------------------------------------------
// Per-tick transition, executable
// ---------------------------------------------------------------------------

/// Applies one player's input: shoot edge-detection against the ball, then
/// impulses, then the speed governor. Positions do not move here.
fn step_player(p: &Player, ball: &Ball) -> (r: (Player, Ball))
    requires
        p.wf(),
        ball.wf(),
    ensures
        (r.0, r.1) == player_step(*p, *ball),
        r.0.wf(),
        r.1.wf(),
{
    let mut p2 = *p;
    let mut b2 = *ball;
    let input = p2.current_input;
    if input.shoot {
        if !p2.last_tick_shot {
            let dx = b2.x - p2.x;
            let dy = b2.y - p2.y;
            proof {
                assert(0 <= dx * dx <= 1_000_000 && 0 <= dy * dy <= 1_000_000)
                    by (nonlinear_arith)
                    requires
                        -1_000 <= dx <= 1_000,
                        -1_000 <= dy <= 1_000,
                ;
            }
            let dist_sq = dx * dx + dy * dy;
            if 0 < dist_sq && dist_sq <= SHOOTING_DISTANCE * SHOOTING_DISTANCE {
                let (kvx, kvy) = kick_velocity(dx, dy, BALL_TOP_SPEED);
                b2.vx = kvx;
                b2.vy = kvy;
            }
            p2.last_tick_shot = true;
        }
    } else {
        p2.last_tick_shot = false;
    }
    proof {
        assert((p2, b2) == shoot_step(*p, *ball));
        lemma_speed_component_bound(p2.vx as int, p2.vy as int, PLAYER_TOP_SPEED as int);
    }
    if input.up {
        p2.vy = p2.vy - PLAYER_ACCELERATION;
    } else if input.down {
        p2.vy = p2.vy + PLAYER_ACCELERATION;
    }
    if input.left {
        p2.vx = p2.vx - PLAYER_ACCELERATION;
    } else if input.right {
        p2.vx = p2.vx + PLAYER_ACCELERATION;
    }
    proof {
        assert(p2 == impulse_step(shoot_step(*p, *ball).0));
    }
    let (cvx, cvy) = limit_speed(p2.vx, p2.vy, PLAYER_TOP_SPEED);
    p2.vx = cvx;
    p2.vy = cvy;
    (p2, b2)
}

/// Damps a player's velocity and moves it, the stadium walls clamping the
/// position.
fn integrate_player_exec(p: &Player) -> (r: Player)
    requires
        p.wf(),
    ensures
        r == integrate_player(*p),
        r.wf(),
{
    proof {
        lemma_speed_component_bound(p.vx as int, p.vy as int, PLAYER_TOP_SPEED as int);
        crate::math::lemma_damp_speed_bound(p.vx as int, p.vy as int, PLAYER_DAMPING as int,
            PLAYER_TOP_SPEED as int);
    }
    let vx = damp_component(p.vx, PLAYER_DAMPING);
    let vy = damp_component(p.vy, PLAYER_DAMPING);
    let x = clamp_coord(p.x + vx, 0, STADIUM_WIDTH);
    let y = clamp_coord(p.y + vy, 0, STADIUM_HEIGHT);
    Player { x, y, vx, vy, ..*p }
}

/// Damps the ball's velocity and moves it, the stadium walls clamping the
/// position.
fn integrate_ball_exec(b: &Ball) -> (r: Ball)
    requires
        b.wf(),
    ensures
        r == integrate_ball(*b),
        r.wf(),
{
    proof {
        lemma_speed_component_bound(b.vx as int, b.vy as int, BALL_TOP_SPEED as int);
        crate::math::lemma_damp_speed_bound(b.vx as int, b.vy as int, BALL_DAMPING as int,
            BALL_TOP_SPEED as int);
    }
    let vx = damp_component(b.vx, BALL_DAMPING);
    let vy = damp_component(b.vy, BALL_DAMPING);
    let x = clamp_coord(b.x + vx, 0, STADIUM_WIDTH);
    let y = clamp_coord(b.y + vy, 0, STADIUM_HEIGHT);
    Ball { x, y, vx, vy }
}

// ---------------------------------------------------------------------------
// Match-state transition, as a spec function
// ---------------------------------------------------------------------------

/// The ball has crossed the left goal line: blue scores.
pub open spec fn goal_for_blue(ball: Ball) -> bool {
    ball.x < PITCH_LEFT_LINE
}

/// The ball has crossed the right goal line: red scores.
pub open spec fn goal_for_red(ball: Ball) -> bool {
    ball.x > PITCH_RIGHT_LINE
}

/// The match-state check that precedes each tick. While playing, a ball
/// beyond a goal line credits the scoring team and starts the pause. During
/// the pause the countdown decrements; on expiry the celebration flags come
/// down, the match ends if a team has reached the goal target, and every
/// body returns to its kickoff state. Once ended, nothing changes.
pub open spec fn check_timer_spec(roster: Seq<Player>, host: Player, ball: Ball, a: Arbiter) -> (
    Seq<Player>,
    Player,
    Ball,
    Arbiter,
) {
    if a.game_ended {
        (roster, host, ball, a)
    } else if a.reset_timer > 0 {
        if a.reset_timer == 1 {
            let ended = a.red_score == MAX_GOALS || a.blue_score == MAX_GOALS;
            (
                roster.map_values(|p: Player| p.reset_spec(0, 0)),
                host.reset_spec(0, 0),
                ball_at_kickoff(),
                Arbiter {
                    red_scored: false,
                    blue_scored: false,
                    reset_timer: 0,
                    game_ended: ended,
                    ..a
                },
            )
        } else {
            (roster, host, ball, Arbiter { reset_timer: (a.reset_timer - 1) as u32, ..a })
        }
    } else if goal_for_blue(ball) {
        (
            roster,
            host,
            ball,
            Arbiter {
                blue_scored: true,
                blue_score: (a.blue_score + 1) as u32,
                send_score_message: true,
                reset_timer: RESET_TIME,
                ..a
            },
        )
    } else if goal_for_red(ball) {
        (
            roster,
            host,
            ball,
            Arbiter {
                red_scored: true,
                red_score: (a.red_score + 1) as u32,
                send_score_message: true,
                reset_timer: RESET_TIME,
                ..a
            },
        )
    } else {
        (roster, host, ball, a)
    }
}

// ---------------------------------------------------------------------------
// Roster bookkeeping, as spec functions
// ---------------------------------------------------------------------------

/// How many players of a roster play for red.
pub open spec fn count_red(s: Seq<Player>) -> int
    decreases s.len(),
{
    if s.len() == 0 {
        0
    } else {
        count_red(s.drop_last()) + if s.last().red {
            1int
        } else {
            0int
        }
    }
}

/// The player a newly connected peer receives: it joins the team with fewer
/// members (the host playing red counts; blue wins ties), standing at rest
/// on that team's kickoff spot, numbered one past its team's new size.
pub open spec fn new_player_for(roster: Seq<Player>) -> Player {
    let red_total = 1 + count_red(roster);
    let blue_total = roster.len() - count_red(roster);
    let red = red_total < blue_total;
    let number = if red {
        red_total + 1
    } else {
        blue_total + 1
    };
    Player {
        x: kickoff_x(red) as i64,
        y: kickoff_y() as i64,
        vx: 0,
        vy: 0,
        radius: PLAYER_RADIUS,
        red,
        number: number as u32,
        current_input: idle_input(),
        last_tick_shot: false,
    }
}

/// Whether some roster entry carries the key `k`.
pub open spec fn has_key(s: Seq<(u64, Player)>, k: u64) -> bool {
    exists|i: int| 0 <= i < s.len() && s[i].0 == k
}

/// The index of the roster entry carrying the key `k` (unique when the keys
/// are distinct).
pub open spec fn key_index(s: Seq<(u64, Player)>, k: u64) -> int {
    choose|i: int| 0 <= i < s.len() && s[i].0 == k
}

/// The host's own player: red, number one, at red's kickoff spot.
pub open spec fn host_kickoff_player() -> Player {
    Player {
        x: kickoff_x(true) as i64,
        y: kickoff_y() as i64,
        vx: 0,
        vy: 0,
        radius: PLAYER_RADIUS,
        red: true,
        number: 1,
        current_input: idle_input(),
        last_tick_shot: false,
    }
}

/// A player flattened to its wire circle.
pub open spec fn player_circle(p: Player) -> Circle {
    Circle { x: p.x, y: p.y, radius: p.radius, red: p.red, player_number: p.number as i64 }
}

/// The ball flattened to its wire circle.
pub open spec fn ball_circle(b: Ball) -> Circle {
    Circle { x: b.x, y: b.y, radius: BALL_RADIUS, red: false, player_number: -1i64 }
}

// ---------------------------------------------------------------------------
// The host game
// ---------------------------------------------------------------------------

/// The authoritative world: the host's own player, the remote players keyed
/// by connection id, the static geometry, the ball, and the arbiter.
pub struct HostGame {
    /// The host's own player, red team, processed after every remote player.
    pub host_player: Player,
    /// Remote players, keyed by the peer's connection id, in joining order.
    pub players: Vec<(u64, Player)>,
    /// The twelve static pitch boundary segments.
    pub edges: Vec<Edge>,
    /// The four static goal posts.
    pub goal_posts: Vec<Circle>,
    /// The ball.
    pub ball: Ball,
    /// Score, celebration flags, pause countdown, end flag.
    pub arbiter: Arbiter,
    /// The one-shot end-of-match broadcast has gone out.
    pub ended_announced: bool,
}

impl HostGame {
    /// The remote players, in roster order.
    pub open spec fn roster(self) -> Seq<Player> {
        self.players@.map_values(|kv: (u64, Player)| kv.1)
    }

    /// The remote players' connection ids, in roster order.
    pub open spec fn keys(self) -> Seq<u64> {
        self.players@.map_values(|kv: (u64, Player)| kv.0)
    }

    /// Well-formedness: every body is inside the stadium and within its
    /// speed limit, the arbiter is consistent, and roster keys are distinct.
    pub open spec fn wf(self) -> bool {
        &&& self.host_player.wf()
        &&& forall|i: int|
            0 <= i < self.players@.len() ==> (#[trigger] self.players@[i]).1.wf()
        &&& self.ball.wf()
        &&& self.arbiter.wf()
        &&& forall|i: int, j: int|
            0 <= i < j < self.players@.len() ==> (#[trigger] self.players@[i]).0 != (
            #[trigger] self.players@[j]).0
    }

    /// A fresh authoritative world: geometry built, the host's player and
    /// the ball at kickoff, no remote player yet, a fresh arbiter.
    pub fn new() -> (r: HostGame)
        ensures
            r.wf(),
            r.host_player == host_kickoff_player(),
            r.players@ == Seq::<(u64, Player)>::empty(),
            r.edges@ == pitch_lines_layout(),
            r.goal_posts@ == goal_posts_layout(),
            r.ball == ball_at_kickoff(),
            r.arbiter == fresh_arbiter(),
            !r.ended_announced,
    {
        let edges = create_pitch_lines();
        let goal_posts = create_goals_posts();
        let host_player = Player::new(
            PITCH_LEFT_LINE + 2 * crate::constants::PLAYER_DIAMETER,
            crate::constants::STADIUM_CENTER_Y,
            PLAYER_RADIUS,
            true,
            1,
        );
        HostGame {
            host_player,
            players: Vec::new(),
            edges,
            goal_posts,
            ball: Ball::new(),
            arbiter: Arbiter::new(),
            ended_announced: false,
        }
    }

    /// Applies every player's buffered input, remote players in roster order
    /// and the host's own player last, threading kicks through the ball.
    fn parse_input(&mut self)
        requires
            old(self).wf(),
        ensures
            final(self).wf(),
            final(self).players@.len() == old(self).players@.len(),
            forall|j: int|
                0 <= j < old(self).players@.len() ==> final(self).players@[j].0 == old(
                self).players@[j].0,
            ({
                let rp = roster_step_prefix(old(self).roster(), old(self).ball,
                    old(self).players@.len() as int);
                let hb = player_step(old(self).host_player, rp.1);
                &&& final(self).roster() == rp.0
                &&& final(self).host_player == hb.0
                &&& final(self).ball == hb.1
            }),
            final(self).edges == old(self).edges,
            final(self).goal_posts == old(self).goal_posts,
            final(self).arbiter == old(self).arbiter,
            final(self).ended_announced == old(self).ended_announced,
    {
        let n = self.players.len();
        let mut i: usize = 0;
        while i < n
            invariant
                old(self).wf(),
                i <= n,
                n == old(self).players@.len(),
                self.players@.len() == n,
                forall|j: int|
                    0 <= j < n ==> (#[trigger] self.players@[j]).0 == old(self).players@[j].0,
                forall|j: int| 0 <= j < n ==> (#[trigger] self.players@[j]).1.wf(),
                self.roster() == roster_step_prefix(old(self).roster(), old(self).ball,
                    i as int).0,
                self.ball == roster_step_prefix(old(self).roster(), old(self).ball, i as int).1,
                self.ball.wf(),
                self.host_player == old(self).host_player,
                self.edges == old(self).edges,
                self.goal_posts == old(self).goal_posts,
                self.arbiter == old(self).arbiter,
                self.ended_announced == old(self).ended_announced,
            decreases n - i,
        {
            let ghost prev = roster_step_prefix(old(self).roster(), old(self).ball, i as int);
            let (key, p) = self.players[i];
            proof {
                assert(p == self.roster()[i as int]);
            }
            let (p2, b2) = step_player(&p, &self.ball);
            self.players[i] = (key, p2);
            self.ball = b2;
            proof {
                let cur = roster_step_prefix(old(self).roster(), old(self).ball, i + 1);
                assert(cur.0 == prev.0.update(i as int, p2));
                assert(self.roster() =~= prev.0.update(i as int, p2));
            }
            i = i + 1;
        }
        let (h2, b2) = step_player(&self.host_player, &self.ball);
        self.host_player = h2;
        self.ball = b2;
    }

    /// One simulation tick: input application (including any kick), the
    /// ball's speed governor, and one integration step for every body. The
    /// arbiter and the static geometry are untouched; after the tick every
    /// body is inside the stadium and within its speed limit.
    pub fn tick(&mut self)
        requires
            old(self).wf(),
        ensures
            final(self).wf(),
            final(self).players@.len() == old(self).players@.len(),
            forall|j: int|
                0 <= j < old(self).players@.len() ==> final(self).players@[j].0 == old(
                self).players@[j].0,
            ({
                let t = tick_spec(old(self).roster(), old(self).host_player, old(self).ball);
                &&& final(self).roster() == t.0
                &&& final(self).host_player == t.1
                &&& final(self).ball == t.2
            }),
            final(self).edges == old(self).edges,
            final(self).goal_posts == old(self).goal_posts,
            final(self).arbiter == old(self).arbiter,
            final(self).ended_announced == old(self).ended_announced,
    {
        self.parse_input();
        proof {
            lemma_speed_component_bound(self.ball.vx as int, self.ball.vy as int,
                BALL_TOP_SPEED as int);
        }
        let (bvx, bvy) = limit_speed(self.ball.vx, self.ball.vy, BALL_TOP_SPEED);
        self.ball.vx = bvx;
        self.ball.vy = bvy;
        let ghost mid = *self;
        proof {
            let rp = roster_step_prefix(old(self).roster(), old(self).ball,
                old(self).players@.len() as int);
            let hb = player_step(old(self).host_player, rp.1);
            assert(mid.ball == ball_speed_clamped(hb.1));
        }
        let n = self.players.len();
        let mut i: usize = 0;
        while i < n
            invariant
                i <= n,
                n == mid.players@.len(),
                self.players@.len() == n,
                forall|j: int|
                    0 <= j < n ==> (#[trigger] self.players@[j]).0 == mid.players@[j].0,
                forall|j: int|
                    0 <= j < i ==> (#[trigger] self.players@[j]).1 == integrate_player(
                    mid.players@[j].1),
                forall|j: int|
                    i <= j < n ==> (#[trigger] self.players@[j]).1 == mid.players@[j].1,
                forall|j: int| 0 <= j < n ==> (#[trigger] self.players@[j]).1.wf(),
                self.host_player == mid.host_player,
                self.ball == mid.ball,
                self.edges == mid.edges,
                self.goal_posts == mid.goal_posts,
                self.arbiter == mid.arbiter,
                self.ended_announced == mid.ended_announced,
                forall|j: int| 0 <= j < n ==> (#[trigger] mid.players@[j]).1.wf(),
            decreases n - i,
        {
            let (key, p) = self.players[i];
            let p2 = integrate_player_exec(&p);
            self.players[i] = (key, p2);
            i = i + 1;
        }
        self.host_player = integrate_player_exec(&self.host_player);
        self.ball = integrate_ball_exec(&self.ball);
        proof {
            let t = tick_spec(old(self).roster(), old(self).host_player, old(self).ball);
            assert(self.roster() =~= t.0);
        }
    }

    /// Checks the ball against the goal lines, crediting the scoring team.
    /// Returns whether a goal was scored.
    fn goal_scored(&mut self) -> (r: bool)
        requires
            old(self).wf(),
            old(self).arbiter.playing(),
        ensures
            r == (goal_for_blue(old(self).ball) || goal_for_red(old(self).ball)),
            goal_for_blue(old(self).ball) ==> final(self).arbiter == (Arbiter {
                blue_scored: true,
                blue_score: (old(self).arbiter.blue_score + 1) as u32,
                send_score_message: true,
                ..old(self).arbiter
            }),
            !goal_for_blue(old(self).ball) && goal_for_red(old(self).ball) ==> final(
                self).arbiter == (Arbiter {
                red_scored: true,
                red_score: (old(self).arbiter.red_score + 1) as u32,
                send_score_message: true,
                ..old(self).arbiter
            }),
            !r ==> final(self).arbiter == old(self).arbiter,
            final(self).players == old(self).players,
            final(self).host_player == old(self).host_player,
            final(self).ball == old(self).ball,
            final(self).edges == old(self).edges,
            final(self).goal_posts == old(self).goal_posts,
            final(self).ended_announced == old(self).ended_announced,
    {
        let x = self.ball.x;
        if x < PITCH_LEFT_LINE {
            self.arbiter.set_blue_scored();
            true
        } else if x > PITCH_RIGHT_LINE {
            self.arbiter.set_red_scored();
            true
        } else {
            false
        }
    }

    /// Ends the match if either team has reached the goal target.
    fn check_ending(&mut self)
        ensures
            final(self).arbiter == (Arbiter {
                game_ended: old(self).arbiter.game_ended || old(self).arbiter.red_score
                    == MAX_GOALS || old(self).arbiter.blue_score == MAX_GOALS,
                ..old(self).arbiter
            }),
            final(self).players == old(self).players,
            final(self).host_player == old(self).host_player,
            final(self).ball == old(self).ball,
            final(self).edges == old(self).edges,
            final(self).goal_posts == old(self).goal_posts,
            final(self).ended_announced == old(self).ended_announced,
    {
        if self.arbiter.red_score == MAX_GOALS || self.arbiter.blue_score == MAX_GOALS {
            self.arbiter.game_ended = true;
        }
    }

    /// Puts every body back in its kickoff state: the ball at the stadium
    /// centre, every player on its team's kickoff spot, all at rest.
    fn reset_game(&mut self)
        requires
            old(self).wf(),
        ensures
            final(self).roster() == old(self).roster().map_values(
                |p: Player| p.reset_spec(0, 0)),
            final(self).players@.len() == old(self).players@.len(),
            forall|j: int|
                0 <= j < old(self).players@.len() ==> final(self).players@[j].0 == old(
                self).players@[j].0,
            final(self).host_player == old(self).host_player.reset_spec(0, 0),
            final(self).ball == ball_at_kickoff(),
            final(self).arbiter == old(self).arbiter,
            final(self).edges == old(self).edges,
            final(self).goal_posts == old(self).goal_posts,
            final(self).ended_announced == old(self).ended_announced,
            final(self).host_player.wf(),
            forall|j: int|
                0 <= j < final(self).players@.len() ==> (#[trigger] final(
                self).players@[j]).1.wf(),
            final(self).ball.wf(),
    {
        self.ball = Ball::new();
        let n = self.players.len();
        let mut i: usize = 0;
        while i < n
            invariant
                old(self).wf(),
                i <= n,
                n == old(self).players@.len(),
                self.players@.len() == n,
                forall|j: int|
                    0 <= j < n ==> (#[trigger] self.players@[j]).0 == old(self).players@[j].0,
                forall|j: int|
                    0 <= j < i ==> (#[trigger] self.players@[j]).1 == old(
                    self).players@[j].1.reset_spec(0, 0),
                forall|j: int|
                    i <= j < n ==> (#[trigger] self.players@[j]).1 == old(self).players@[j].1,
                forall|j: int| 0 <= j < i ==> (#[trigger] self.players@[j]).1.wf(),
                self.host_player == old(self).host_player,
                self.ball == ball_at_kickoff(),
                self.arbiter == old(self).arbiter,
                self.edges == old(self).edges,
                self.goal_posts == old(self).goal_posts,
                self.ended_announced == old(self).ended_announced,
            decreases n - i,
        {
            let (key, p) = self.players[i];
            let mut p2 = p;
            p2.reset_position(0, 0);
            self.players[i] = (key, p2);
            i = i + 1;
        }
        self.host_player.reset_position(0, 0);
        proof {
            assert(self.roster() =~= old(self).roster().map_values(
                |p: Player| p.reset_spec(0, 0)));
        }
    }

    /// One countdown step of the goal pause; on expiry the celebration
    /// flags come down, the match ends if a team has reached the goal
    /// target, and every body returns to its kickoff state.
    fn timer_tick(&mut self)
        requires
            old(self).wf(),
            old(self).arbiter.in_goal_pause(),
        ensures
            ({
                let c = check_timer_spec(old(self).roster(), old(self).host_player,
                    old(self).ball, old(self).arbiter);
                &&& final(self).roster() == c.0
                &&& final(self).host_player == c.1
                &&& final(self).ball == c.2
                &&& final(self).arbiter == c.3
            }),
            final(self).players@.len() == old(self).players@.len(),
            forall|j: int|
                0 <= j < old(self).players@.len() ==> final(self).players@[j].0 == old(
                self).players@[j].0,
            final(self).edges == old(self).edges,
            final(self).goal_posts == old(self).goal_posts,
            final(self).ended_announced == old(self).ended_announced,
            final(self).wf(),
    {
        self.arbiter.reset_timer = self.arbiter.reset_timer - 1;
        if self.arbiter.reset_timer == 0 {
            self.arbiter.reset_who_scored();
            self.check_ending();
            self.reset_game();
        }
    }

    /// The match-state check that precedes each tick: while playing, detect
    /// a goal and start the pause; during a pause, count down and on expiry
    /// reset for kickoff or end the match; once ended, change nothing.
    pub fn check_timer(&mut self)
        requires
            old(self).wf(),
        ensures
            final(self).wf(),
            ({
                let c = check_timer_spec(old(self).roster(), old(self).host_player,
                    old(self).ball, old(self).arbiter);
                &&& final(self).roster() == c.0
                &&& final(self).host_player == c.1
                &&& final(self).ball == c.2
                &&& final(self).arbiter == c.3
            }),
            final(self).players@.len() == old(self).players@.len(),
            forall|j: int|
                0 <= j < old(self).players@.len() ==> final(self).players@[j].0 == old(
                self).players@[j].0,
            final(self).edges == old(self).edges,
            final(self).goal_posts == old(self).goal_posts,
            final(self).ended_announced == old(self).ended_announced,
    {
        if self.arbiter.game_ended {
            return;
        }
        if self.arbiter.reset_timer > 0 {
            self.timer_tick();
        } else {
            let scored = self.goal_scored();
            if scored {
                self.arbiter.reset_timer = RESET_TIME;
            }
        }
    }

    /// Every player's wire circle, remote players in roster order and the
    /// host's own player last.
    pub open spec fn player_circles(self) -> Seq<Circle> {
        self.roster().map_values(|p: Player| player_circle(p)).push(
            player_circle(self.host_player))
    }

    /// The wire circles of all players: remote players first, the host last.
    pub fn get_player_entities(&self) -> (r: Vec<Circle>)
        ensures
            r@ == self.player_circles(),
    {
        let mut v: Vec<Circle> = Vec::new();
        let n = self.players.len();
        let mut i: usize = 0;
        while i < n
            invariant
                i <= n,
                n == self.players@.len(),
                v@.len() == i,
                forall|j: int| 0 <= j < i ==> v@[j] == player_circle(self.roster()[j]),
            decreases n - i,
        {
            let c = self.players[i].1.to_circle();
            v.push(c);
            i = i + 1;
        }
        v.push(self.host_player.to_circle());
        proof {
            assert(v@ =~= self.player_circles());
        }
        v
    }

    /// The ball's wire circle.
    pub fn get_ball_entity(&self) -> (r: Circle)
        ensures
            r == ball_circle(self.ball),
    {
        self.ball.to_circle()
    }

    /// A copy of the static pitch boundary, for the init snapshot.
    pub fn get_edge_entities(&self) -> (r: Vec<Edge>)
        ensures
            r@ == self.edges@,
    {
        let mut v: Vec<Edge> = Vec::new();
        let n = self.edges.len();
        let mut i: usize = 0;
        while i < n
            invariant
                i <= n,
                n == self.edges@.len(),
                v@ == self.edges@.take(i as int),
            decreases n - i,
        {
            let e = self.edges[i];
            v.push(e);
            proof {
                assert(v@ =~= self.edges@.take(i + 1));
            }
            i = i + 1;
        }
        proof {
            assert(v@ =~= self.edges@);
        }
        v
    }

    /// A copy of the goal posts, for the init snapshot.
    pub fn get_goal_posts_entities(&self) -> (r: Vec<Circle>)
        ensures
            r@ == self.goal_posts@,
    {
        let mut v: Vec<Circle> = Vec::new();
        let n = self.goal_posts.len();
        let mut i: usize = 0;
        while i < n
            invariant
                i <= n,
                n == self.goal_posts@.len(),
                v@ == self.goal_posts@.take(i as int),
            decreases n - i,
        {
            let c = self.goal_posts[i];
            v.push(c);
            proof {
                assert(v@ =~= self.goal_posts@.take(i + 1));
            }
            i = i + 1;
        }
        proof {
            assert(v@ =~= self.goal_posts@);
        }
        v
    }

    /// The full snapshot a newly connected peer receives.
    pub fn init_message(&self) -> (m: Message)
        ensures
            m matches Message::GameInit { edges, goal_posts, players, ball } && edges@
                == self.edges@ && goal_posts@ == self.goal_posts@ && players@
                == self.player_circles() && ball == ball_circle(self.ball),
    {
        Message::GameInit {
            edges: self.get_edge_entities(),
            goal_posts: self.get_goal_posts_entities(),
            players: self.get_player_entities(),
            ball: self.get_ball_entity(),
        }
    }

    /// The one broadcast of this tick. While the match runs it is the
    /// routine state update, except on the tick after a goal, when the
    /// pending announcement is sent (and cleared) instead. On the first call
    /// after the match ends it is the one-shot end-of-match message; after
    /// that, nothing.
    pub fn host_send_state(&mut self) -> (m: Option<Message>)
        requires
            old(self).wf(),
        ensures
            final(self).wf(),
            final(self).players == old(self).players,
            final(self).host_player == old(self).host_player,
            final(self).ball == old(self).ball,
            final(self).edges == old(self).edges,
            final(self).goal_posts == old(self).goal_posts,
            old(self).arbiter.game_ended && old(self).ended_announced ==> m is None
                && final(self).arbiter == old(self).arbiter && final(self).ended_announced,
            old(self).arbiter.game_ended && !old(self).ended_announced ==> m == Some(
                Message::GameEnded) && final(self).arbiter == old(self).arbiter && final(
                self).ended_announced,
            !old(self).arbiter.game_ended ==> final(self).ended_announced == old(
                self).ended_announced,
            !old(self).arbiter.game_ended && old(self).arbiter.send_score_message ==> final(
                self).arbiter == (Arbiter { send_score_message: false, ..old(self).arbiter })
                && (m matches Some(msg) && msg matches Message::GoalScored { red_scored, score }
                && red_scored == old(self).arbiter.red_scored && score == (Score {
                red_score: old(self).arbiter.red_score,
                blue_score: old(self).arbiter.blue_score,
            })),
            !old(self).arbiter.game_ended && !old(self).arbiter.send_score_message ==> final(
                self).arbiter == old(self).arbiter && (m matches Some(msg) && msg matches
                Message::GameState { players, ball } && players@ == old(self).player_circles()
                && ball == ball_circle(old(self).ball)),
    {
        if self.arbiter.game_ended {
            if !self.ended_announced {
                self.ended_announced = true;
                Some(Message::GameEnded)
            } else {
                None
            }
        } else if self.arbiter.send_score_message {
            self.arbiter.send_score_message = false;
            Some(Message::GoalScored {
                red_scored: self.arbiter.red_scored,
                score: Score::new(self.arbiter.red_score, self.arbiter.blue_score),
            })
        } else {
            Some(Message::GameState {
                players: self.get_player_entities(),
                ball: self.get_ball_entity(),
            })
        }
    }

    /// Whether red is celebrating a goal.
    pub fn get_red_scored(&self) -> (r: bool)
        ensures
            r == self.arbiter.red_scored,
    {
        self.arbiter.red_scored
    }

    /// Whether blue is celebrating a goal.
    pub fn get_blue_scored(&self) -> (r: bool)
        ensures
            r == self.arbiter.blue_scored,
    {
        self.arbiter.blue_scored
    }

    /// The current score.
    pub fn get_score(&self) -> (r: Score)
        ensures
            r == (Score {
                red_score: self.arbiter.red_score,
                blue_score: self.arbiter.blue_score,
            }),
    {
        Score::new(self.arbiter.red_score, self.arbiter.blue_score)
    }

    /// Whether the match has ended.
    pub fn get_game_ended(&self) -> (r: bool)
        ensures
            r == self.arbiter.game_ended,
    {
        self.arbiter.game_ended
    }

    /// The thickness of a painted pitch line, for the renderer.
    pub fn get_pitch_line_width(&self) -> (r: i64)
        ensures
            r == PITCH_LINE_WIDTH,
    {
        PITCH_LINE_WIDTH
    }

    /// The stadium's width, for the renderer.
    pub fn get_stadium_width(&self) -> (r: i64)
        ensures
            r == STADIUM_WIDTH,
    {
        STADIUM_WIDTH
    }

    /// The stadium's height, for the renderer.
    pub fn get_stadium_height(&self) -> (r: i64)
        ensures
            r == STADIUM_HEIGHT,
    {
        STADIUM_HEIGHT
    }

    /// The opening of a goal mouth, for the renderer.
    pub fn get_goal_breadth(&self) -> (r: i64)
        ensures
            r == crate::constants::GOAL_BREADTH,
    {
        crate::constants::GOAL_BREADTH
    }

    /// The left goal line's x coordinate, for the renderer.
    pub fn get_pitch_left_line(&self) -> (r: i64)
        ensures
            r == PITCH_LEFT_LINE,
    {
        PITCH_LEFT_LINE
    }

    /// The right goal line's x coordinate, for the renderer.
    pub fn get_pitch_right_line(&self) -> (r: i64)
        ensures
            r == PITCH_RIGHT_LINE,
    {
        PITCH_RIGHT_LINE
    }

    /// The top touch line's y coordinate, for the renderer.
    pub fn get_pitch_top_line(&self) -> (r: i64)
        ensures
            r == crate::constants::PITCH_TOP_LINE,
    {
        crate::constants::PITCH_TOP_LINE
    }

    /// The bottom touch line's y coordinate, for the renderer.
    pub fn get_pitch_bottom_line(&self) -> (r: i64)
        ensures
            r == crate::constants::PITCH_BOTTOM_LINE,
    {
        crate::constants::PITCH_BOTTOM_LINE
    }

    /// Creates the player for a newly connected peer and inserts it under
    /// the peer's connection id: it joins the team with fewer members and
    /// stands at rest on that team's kickoff spot. A reused id replaces that
    /// peer's previous player, as a fresh connection supersedes a stale one.
    pub fn add_player(&mut self, user_id: u64)
        requires
            old(self).wf(),
            old(self).players@.len() < 1000,
        ensures
            final(self).wf(),
            ({
                let p = new_player_for(old(self).roster());
                &&& has_key(old(self).players@, user_id) ==> final(self).players@ == old(
                    self).players@.update(key_index(old(self).players@, user_id), (user_id, p))
                &&& !has_key(old(self).players@, user_id) ==> final(self).players@ == old(
                    self).players@.push((user_id, p))
            }),
            final(self).host_player == old(self).host_player,
            final(self).ball == old(self).ball,
            final(self).arbiter == old(self).arbiter,
            final(self).edges == old(self).edges,
            final(self).goal_posts == old(self).goal_posts,
            final(self).ended_announced == old(self).ended_announced,
    {
        let n = self.players.len();
        let mut red_count: usize = 0;
        let mut i: usize = 0;
        while i < n
            invariant
                i <= n,
                n == self.players@.len() <= 1000,
                red_count == count_red(self.roster().take(i as int)),
                0 <= red_count <= i,
            decreases n - i,
        {
            proof {
                assert(self.roster().take(i + 1).drop_last() =~= self.roster().take(i as int));
                assert(self.roster().take(i + 1).last() == self.roster()[i as int]);
            }
            if self.players[i].1.red {
                red_count = red_count + 1;
            }
            i = i + 1;
        }
        proof {
            assert(self.roster().take(n as int) =~= self.roster());
        }
        let blue_count: usize = n - red_count;
        let red_total: usize = 1 + red_count;
        let blue_total: usize = blue_count;
        let is_red = red_total < blue_total;
        let number: usize = if is_red {
            red_total + 1
        } else {
            blue_total + 1
        };
        let x = if is_red {
            PITCH_LEFT_LINE + 2 * crate::constants::PLAYER_DIAMETER
        } else {
            PITCH_RIGHT_LINE - 2 * crate::constants::PLAYER_DIAMETER
        };
        let p = Player::new(x, crate::constants::STADIUM_CENTER_Y, PLAYER_RADIUS, is_red,
            number as u32);
        proof {
            assert(p == new_player_for(old(self).roster()));
        }
        let mut found: Option<usize> = None;
        let mut i: usize = 0;
        while i < n
            invariant
                i <= n,
                n == self.players@.len(),
                found is None ==> forall|j: int|
                    0 <= j < i ==> (#[trigger] self.players@[j]).0 != user_id,
                found matches Some(k) ==> 0 <= k < n && self.players@[k as int].0 == user_id,
            decreases n - i,
        {
            if self.players[i].0 == user_id {
                found = Some(i);
            }
            i = i + 1;
        }
        match found {
            Some(j) => {
                proof {
                    assert(has_key(self.players@, user_id));
                    let k = key_index(self.players@, user_id);
                    assert(0 <= k < self.players@.len() && self.players@[k].0 == user_id);
                    assert(k == j as int);
                }
                self.players[j] = (user_id, p);
            },
            None => {
                proof {
                    assert(!has_key(self.players@, user_id));
                }
                self.players.push((user_id, p));
            },
        }
    }

    /// Stores the most recently received input for the peer with the given
    /// connection id. A message for an id the host has no record of is
    /// dropped; the return value tells whether the input was applied.
    pub fn set_player_input(&mut self, user_id: u64, input: PlayerInput) -> (applied: bool)
        requires
            old(self).wf(),
        ensures
            final(self).wf(),
            applied == has_key(old(self).players@, user_id),
            applied ==> ({
                let k = key_index(old(self).players@, user_id);
                let p = old(self).players@[k].1;
                final(self).players@ == old(self).players@.update(k, (user_id, Player {
                    current_input: input,
                    ..p
                }))
            }),
            !applied ==> final(self).players == old(self).players,
            final(self).host_player == old(self).host_player,
            final(self).ball == old(self).ball,
            final(self).arbiter == old(self).arbiter,
            final(self).edges == old(self).edges,
            final(self).goal_posts == old(self).goal_posts,
            final(self).ended_announced == old(self).ended_announced,
    {
        let n = self.players.len();
        let mut i: usize = 0;
        while i < n
            invariant
                old(self).wf(),
                i <= n,
                n == self.players@.len(),
                self == old(self),
                forall|j: int| 0 <= j < i ==> (#[trigger] self.players@[j]).0 != user_id,
            decreases n - i,
        {
            let (key, p) = self.players[i];
            if key == user_id {
                proof {
                    assert(has_key(self.players@, user_id));
                    let k = key_index(old(self).players@, user_id);
                    assert(0 <= k < self.players@.len() && self.players@[k].0 == user_id);
                    assert(k == i as int);
                }
                self.players[i] = (key, Player { current_input: input, ..p });
                return true;
            }
            i = i + 1;
        }
        proof {
            assert(!has_key(self.players@, user_id));
        }
        false
    }

    /// Stores the host's own freshly captured input for the coming tick.
    pub fn set_host_input(&mut self, input: PlayerInput)
        requires
            old(self).wf(),
        ensures
            final(self).wf(),
            final(self).host_player == (Player {
                current_input: input,
                ..old(self).host_player
            }),
            final(self).players == old(self).players,
            final(self).ball == old(self).ball,
            final(self).arbiter == old(self).arbiter,
            final(self).edges == old(self).edges,
            final(self).goal_posts == old(self).goal_posts,
            final(self).ended_announced == old(self).ended_announced,
    {
        self.host_player.set_input(input);
    }

    /// Adopts a ball state refined by an external rigid-body engine,
    /// re-imposing the stadium bounds and the ball's speed limit. Velocity
    /// components are capped at a million units per tick so the governor's
    /// arithmetic stays exact.
    pub fn sync_ball_state(&mut self, x: i64, y: i64, vx: i64, vy: i64)
        requires
            old(self).wf(),
            -1_000_000 <= vx <= 1_000_000,
            -1_000_000 <= vy <= 1_000_000,
        ensures
            final(self).wf(),
            final(self).ball.x == clamp_int(x as int, 0, STADIUM_WIDTH as int),
            final(self).ball.y == clamp_int(y as int, 0, STADIUM_HEIGHT as int),
            (final(self).ball.vx as int, final(self).ball.vy as int) == clamp_vel(vx as int,
                vy as int, BALL_TOP_SPEED as int),
            final(self).players == old(self).players,
            final(self).host_player == old(self).host_player,
            final(self).arbiter == old(self).arbiter,
            final(self).edges == old(self).edges,
            final(self).goal_posts == old(self).goal_posts,
            final(self).ended_announced == old(self).ended_announced,
    {
        let (cvx, cvy) = limit_speed(vx, vy, BALL_TOP_SPEED);
        self.ball = Ball {
            x: clamp_coord(x, 0, STADIUM_WIDTH),
            y: clamp_coord(y, 0, STADIUM_HEIGHT),
            vx: cvx,
            vy: cvy,
        };
    }

    /// Adopts the host player's state as refined by an external rigid-body
    /// engine, re-imposing the stadium bounds and the player speed limit.
    pub fn sync_host_state(&mut self, x: i64, y: i64, vx: i64, vy: i64)
        requires
            old(self).wf(),
            -1_000_000 <= vx <= 1_000_000,
            -1_000_000 <= vy <= 1_000_000,
        ensures
            final(self).wf(),
            final(self).host_player == (Player {
                x: clamp_int(x as int, 0, STADIUM_WIDTH as int) as i64,
                y: clamp_int(y as int, 0, STADIUM_HEIGHT as int) as i64,
                vx: clamp_vel(vx as int, vy as int, PLAYER_TOP_SPEED as int).0 as i64,
                vy: clamp_vel(vx as int, vy as int, PLAYER_TOP_SPEED as int).1 as i64,
                ..old(self).host_player
            }),
            final(self).players == old(self).players,
            final(self).ball == old(self).ball,
            final(self).arbiter == old(self).arbiter,
            final(self).edges == old(self).edges,
            final(self).goal_posts == old(self).goal_posts,
            final(self).ended_announced == old(self).ended_announced,
    {
        let (cvx, cvy) = limit_speed(vx, vy, PLAYER_TOP_SPEED);
        self.host_player.x = clamp_coord(x, 0, STADIUM_WIDTH);
        self.host_player.y = clamp_coord(y, 0, STADIUM_HEIGHT);
        self.host_player.vx = cvx;
        self.host_player.vy = cvy;
    }

    /// Adopts a remote player's state as refined by an external rigid-body
    /// engine, re-imposing the stadium bounds and the player speed limit.
    /// Returns whether the connection id was known.
    pub fn sync_player_state(&mut self, user_id: u64, x: i64, y: i64, vx: i64, vy: i64) -> (
        applied: bool)
        requires
            old(self).wf(),
            -1_000_000 <= vx <= 1_000_000,
            -1_000_000 <= vy <= 1_000_000,
        ensures
            final(self).wf(),
            applied == has_key(old(self).players@, user_id),
            applied ==> ({
                let k = key_index(old(self).players@, user_id);
                let p = old(self).players@[k].1;
                final(self).players@ == old(self).players@.update(k, (user_id, Player {
                    x: clamp_int(x as int, 0, STADIUM_WIDTH as int) as i64,
                    y: clamp_int(y as int, 0, STADIUM_HEIGHT as int) as i64,
                    vx: clamp_vel(vx as int, vy as int, PLAYER_TOP_SPEED as int).0 as i64,
                    vy: clamp_vel(vx as int, vy as int, PLAYER_TOP_SPEED as int).1 as i64,
                    ..p
                }))
            }),
            !applied ==> final(self).players == old(self).players,
            final(self).host_player == old(self).host_player,
            final(self).ball == old(self).ball,
            final(self).arbiter == old(self).arbiter,
            final(self).edges == old(self).edges,
            final(self).goal_posts == old(self).goal_posts,
            final(self).ended_announced == old(self).ended_announced,
    {
        let n = self.players.len();
        let mut i: usize = 0;
        while i < n
            invariant
                old(self).wf(),
                i <= n,
                n == self.players@.len(),
                self == old(self),
                -1_000_000 <= vx <= 1_000_000,
                -1_000_000 <= vy <= 1_000_000,
                forall|j: int| 0 <= j < i ==> (#[trigger] self.players@[j]).0 != user_id,
            decreases n - i,
        {
            let (key, p) = self.players[i];
            if key == user_id {
                proof {
                    assert(has_key(self.players@, user_id));
                    let k = key_index(old(self).players@, user_id);
                    assert(0 <= k < self.players@.len() && self.players@[k].0 == user_id);
                    assert(k == i as int);
                }
                let (cvx, cvy) = limit_speed(vx, vy, PLAYER_TOP_SPEED);
                let p2 = Player {
                    x: clamp_coord(x, 0, STADIUM_WIDTH),
                    y: clamp_coord(y, 0, STADIUM_HEIGHT),
                    vx: cvx,
                    vy: cvy,
                    ..p
                };
                self.players[i] = (key, p2);
                return true;
            }
            i = i + 1;
        }
        proof {
            assert(!has_key(self.players@, user_id));
        }
        false
    }
}

} // verus!
