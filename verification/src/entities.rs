//! The dynamic entities of the game — players and the ball — together with
//! the flattened wire shapes (`Circle`, `Edge`) that snapshots and render
//! projections are made of.
//!
//! A player or ball owns its kinematic state as plain integer coordinates
//! and velocities; an external rigid-body engine may refine them between
//! ticks, but every rule of the game is stated over these values.

use vstd::prelude::*;
use crate::constants::{
    BALL_RADIUS, BALL_TOP_SPEED, PITCH_LEFT_LINE, PITCH_RIGHT_LINE, PLAYER_DIAMETER,
    PLAYER_RADIUS, PLAYER_TOP_SPEED, STADIUM_CENTER_X, STADIUM_CENTER_Y, STADIUM_HEIGHT,
    STADIUM_WIDTH,
};
use crate::input::{idle_input, PlayerInput};
use crate::math::speed_sq;

verus! {

/// A circle on the wire: a player, the ball, or a goal post, flattened to
/// position, radius, team colour, and a display number (`-1` for no player).
#[derive(Clone, Copy, Debug, PartialEq, Eq, Structural)]
pub struct Circle {
    pub x: i64,
    pub y: i64,
    pub radius: i64,
    pub red: bool,
    pub player_number: i64,
}

impl Circle {
    /// Builds a circle from its parts.
    pub fn new(x: i64, y: i64, radius: i64, red: bool, player_number: i64) -> (r: Circle)
        ensures
            r == (Circle { x, y, radius, red, player_number }),
    {
        Circle { x, y, radius, red, player_number }
    }
}

/// An axis-aligned rectangle of pitch boundary, stored by its top-left
/// corner; `white` tells a painted line from a goal-mouth segment.
#[derive(Clone, Copy, Debug, PartialEq, Eq, Structural)]
pub struct Edge {
    pub x: i64,
    pub y: i64,
    pub width: i64,
    pub height: i64,
    pub white: bool,
}

/// The edge whose centre is `(x_center, y_center)`: `Edge::new` stores the
/// top-left corner, shifting by half the extent (rounded down).
pub open spec fn edge_from_center(x_center: int, y_center: int, width: int, height: int,
    white: bool) -> Edge {
    Edge {
        x: (x_center - width / 2) as i64,
        y: (y_center - height / 2) as i64,
        width: width as i64,
        height: height as i64,
        white,
    }
}

impl Edge {
    /// Builds the edge centred at `(x_center, y_center)`.
    pub fn new(x_center: i64, y_center: i64, width: i64, height: i64, white: bool) -> (r: Edge)
        requires
            0 <= width <= STADIUM_WIDTH,
            0 <= height <= STADIUM_HEIGHT,
            -STADIUM_WIDTH <= x_center <= 2 * STADIUM_WIDTH,
            -STADIUM_HEIGHT <= y_center <= 2 * STADIUM_HEIGHT,
        ensures
            r == edge_from_center(x_center as int, y_center as int, width as int, height as int,
                white),
    {
        let half_w = (width as u64 / 2) as i64;
        let half_h = (height as u64 / 2) as i64;
        Edge { x: x_center - half_w, y: y_center - half_h, width, height, white }
    }
}

/// A player: kinematic state, fixed radius, team, display number, the input
/// most recently received from its peer, and the one-tick "already shot"
/// flag that edge-detects the shoot action.
#[derive(Clone, Copy, Debug, PartialEq, Eq, Structural)]
pub struct Player {
    pub x: i64,
    pub y: i64,
    pub vx: i64,
    pub vy: i64,
    pub radius: i64,
    pub red: bool,
    pub number: u32,
    pub current_input: PlayerInput,
    pub last_tick_shot: bool,
}

/// The x coordinate where a team's players kick off: two player diameters
/// inside their own goal line.
pub open spec fn kickoff_x(red: bool) -> int {
    if red {
        PITCH_LEFT_LINE + 2 * PLAYER_DIAMETER
    } else {
        PITCH_RIGHT_LINE - 2 * PLAYER_DIAMETER
    }
}

/// The y coordinate where every player kicks off: mid-stadium.
pub open spec fn kickoff_y() -> int {
    STADIUM_HEIGHT as int / 2
}

impl Player {
    /// A player is well formed when it sits inside the stadium and respects
    /// its speed limit.
    pub open spec fn wf(self) -> bool {
        &&& 0 <= self.x <= STADIUM_WIDTH
        &&& 0 <= self.y <= STADIUM_HEIGHT
        &&& speed_sq(self.vx as int, self.vy as int) <= PLAYER_TOP_SPEED * PLAYER_TOP_SPEED
        &&& self.radius == PLAYER_RADIUS
    }

    /// A newly joined player: at rest at `(x, y)`, no input yet, not having
    /// shot.
    pub fn new(x: i64, y: i64, radius: i64, red: bool, number: u32) -> (r: Player)
        requires
            radius == PLAYER_RADIUS,
            0 <= x <= STADIUM_WIDTH,
            0 <= y <= STADIUM_HEIGHT,
        ensures
            r == (Player {
                x,
                y,
                vx: 0,
                vy: 0,
                radius,
                red,
                number,
                current_input: idle_input(),
                last_tick_shot: false,
            }),
            r.wf(),
    {
        Player {
            x,
            y,
            vx: 0,
            vy: 0,
            radius,
            red,
            number,
            current_input: PlayerInput::default(),
            last_tick_shot: false,
        }
    }

    /// Records whether this player's shoot intent was already honoured.
    pub fn set_last_tick_shot(&mut self, shot: bool)
        ensures
            *final(self) == (Player { last_tick_shot: shot, ..*old(self) }),
    {
        self.last_tick_shot = shot;
    }

    /// Overwrites this player's input with the most recently received one.
    pub fn set_input(&mut self, input: PlayerInput)
        ensures
            *final(self) == (Player { current_input: input, ..*old(self) }),
    {
        self.current_input = input;
    }

    /// The input this player holds for the current tick.
    pub fn get_input(&self) -> (r: PlayerInput)
        ensures
            r == self.current_input,
    {
        self.current_input
    }

    /// This player flattened to its wire circle.
    pub fn to_circle(&self) -> (r: Circle)
        ensures
            r == (Circle {
                x: self.x,
                y: self.y,
                radius: self.radius,
                red: self.red,
                player_number: self.number as i64,
            }),
    {
        Circle::new(self.x, self.y, self.radius, self.red, self.number as i64)
    }

    /// The state of this player after a kickoff reset: standing still at its
    /// team's kickoff spot, shifted by the given offsets.
    pub open spec fn reset_spec(self, x_offset: int, y_offset: int) -> Player {
        Player {
            x: (kickoff_x(self.red) + x_offset) as i64,
            y: (kickoff_y() + y_offset) as i64,
            vx: 0,
            vy: 0,
            ..self
        }
    }

    /// Puts this player back on its team's kickoff spot (shifted by the
    /// offsets) with zero velocity; team, number, input and shot flag stay.
    pub fn reset_position(&mut self, x_offset: i64, y_offset: i64)
        requires
            0 <= kickoff_x(old(self).red) + x_offset <= STADIUM_WIDTH,
            0 <= kickoff_y() + y_offset <= STADIUM_HEIGHT,
        ensures
            *final(self) == old(self).reset_spec(x_offset as int, y_offset as int),
            final(self).wf() <==> old(self).radius == PLAYER_RADIUS,
    {
        let mut x = x_offset;
        let mut y = y_offset;
        if self.red {
            x += PITCH_LEFT_LINE + 2 * PLAYER_DIAMETER;
            y += STADIUM_CENTER_Y;
        } else {
            x += PITCH_RIGHT_LINE - 2 * PLAYER_DIAMETER;
            y += STADIUM_CENTER_Y;
        }
        self.x = x;
        self.y = y;
        self.vx = 0;
        self.vy = 0;
    }
}

/// The ball: kinematic state only. It has no team and a fixed radius.
#[derive(Clone, Copy, Debug, PartialEq, Eq, Structural)]
pub struct Ball {
    pub x: i64,
    pub y: i64,
    pub vx: i64,
    pub vy: i64,
}

/// The ball at rest at the stadium centre: its kickoff state.
pub open spec fn ball_at_kickoff() -> Ball {
    Ball { x: (STADIUM_WIDTH as int / 2) as i64, y: (STADIUM_HEIGHT as int / 2) as i64, vx: 0, vy: 0 }
}

impl Ball {
    /// A ball is well formed when it sits inside the stadium and respects
    /// its speed limit.
    pub open spec fn wf(self) -> bool {
        &&& 0 <= self.x <= STADIUM_WIDTH
        &&& 0 <= self.y <= STADIUM_HEIGHT
        &&& speed_sq(self.vx as int, self.vy as int) <= BALL_TOP_SPEED * BALL_TOP_SPEED
    }

    /// The ball at rest at the stadium centre.
    pub fn new() -> (r: Ball)
        ensures
            r == ball_at_kickoff(),
            r.wf(),
    {
        Ball { x: STADIUM_CENTER_X, y: STADIUM_CENTER_Y, vx: 0, vy: 0 }
    }

    /// The ball flattened to its wire circle.
    pub fn to_circle(&self) -> (r: Circle)
        ensures
            r == (Circle {
                x: self.x,
                y: self.y,
                radius: BALL_RADIUS as i64,
                red: false,
                player_number: -1i64,
            }),
    {
        Circle::new(self.x, self.y, BALL_RADIUS, false, -1)
    }
}

} // verus!
