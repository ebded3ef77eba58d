//! Fixed parameters of the game: stadium and pitch geometry, entity sizes,
//! speed limits, match rules, and the collision-group bitmasks.
//!
//! All lengths are integer world units; velocities are world units per tick.

use vstd::prelude::*;

verus! {

/// Width of the whole stadium (outer walls included).
pub const STADIUM_WIDTH: i64 = 1000;
/// Height of the whole stadium (outer walls included).
pub const STADIUM_HEIGHT: i64 = 600;

/// Width of the playing pitch between the two goal lines.
pub const PITCH_WIDTH: i64 = 800;
/// Height of the playing pitch between the two touch lines.
pub const PITCH_HEIGHT: i64 = 500;

/// X coordinate of the left goal line.
pub const PITCH_LEFT_LINE: i64 = 100;
/// X coordinate of the right goal line.
pub const PITCH_RIGHT_LINE: i64 = 900;
/// Y coordinate of the top touch line.
pub const PITCH_TOP_LINE: i64 = 50;
/// Y coordinate of the bottom touch line.
pub const PITCH_BOTTOM_LINE: i64 = 550;

/// Thickness of a painted pitch line.
pub const PITCH_LINE_WIDTH: i64 = 5;
/// Length of each vertical boundary segment beside a goal mouth.
pub const PITCH_VERTICAL_LINE_HEIGHT: i64 = 170;
/// Opening of a goal mouth along the goal line.
pub const GOAL_BREADTH: i64 = 160;
/// How far a goal recess extends behind the goal line.
pub const GOAL_DEPTH: i64 = 50;

/// Radius of a player's body.
pub const PLAYER_RADIUS: i64 = 25;
/// Diameter of a player's body.
pub const PLAYER_DIAMETER: i64 = 50;
/// Radius of the ball.
pub const BALL_RADIUS: i64 = 15;

/// Maximum player-to-ball centre distance at which a shoot action kicks the ball.
pub const SHOOTING_DISTANCE: i64 = 50;
/// Speed limit for a player, per tick.
pub const PLAYER_TOP_SPEED: i64 = 10;
/// Speed limit for the ball, per tick.
pub const BALL_TOP_SPEED: i64 = 20;
/// Velocity gained on one axis from one tick of held directional input.
pub const PLAYER_ACCELERATION: i64 = 3;

/// A player's velocity loses one part in this many per tick (strong
/// damping, so a player coasts to a stop once input ceases).
pub const PLAYER_DAMPING: i64 = 10;
/// The ball's velocity loses one part in this many per tick (light damping,
/// so the ball rolls on).
pub const BALL_DAMPING: i64 = 20;

/// Ticks the game pauses after a goal before play resumes.
pub const RESET_TIME: u32 = 120;
/// A team reaching this many goals wins and ends the match.
pub const MAX_GOALS: u32 = 3;

/// X coordinate of the stadium centre.
pub const STADIUM_CENTER_X: i64 = 500;
/// Y coordinate of the stadium centre.
pub const STADIUM_CENTER_Y: i64 = 300;

/// Width of the drawing canvas: the pitch plus margin on either side.
pub const GAME_CANVAS_WIDTH: i64 = 2 * PLAYER_DIAMETER + PITCH_WIDTH + 2 * PLAYER_DIAMETER;
/// Height of the drawing canvas: the pitch plus margin above and below.
pub const GAME_CANVAS_HEIGHT: i64 = 2 * PLAYER_DIAMETER + PITCH_HEIGHT;

/// Collision-group bit of the pitch boundary segments.
pub const PITCH_LINES_GROUP: u32 = 1;
/// Collision-group bit of the goal-post circles.
pub const GOAL_POSTS_GROUP: u32 = 2;
/// Collision-group bit of the players.
pub const PLAYERS_GROUP: u32 = 4;
/// Collision-group bit of the four stadium walls.
pub const STADIUM_WALLS_GROUP: u32 = 8;
/// Collision-group bit of the ball.
pub const BALL_GROUP: u32 = 16;

/// Collision filter of a player: players collide with each other, the walls,
/// the ball, and the goal posts — but not with the painted pitch lines, so a
/// player may stand in the goal mouth while the ball cannot pass the recess.
pub const PLAYER_COLLISION_GROUP: u32 = PLAYERS_GROUP | STADIUM_WALLS_GROUP | BALL_GROUP
    | GOAL_POSTS_GROUP;

/// Collision filter of the ball: it collides with players, the pitch
/// boundary, and the goal posts; the stadium walls are left out because the
/// pitch boundary already contains the ball.
pub const BALL_COLLISION_GROUP: u32 = BALL_GROUP | PLAYERS_GROUP | PITCH_LINES_GROUP
    | GOAL_POSTS_GROUP;

/// The five collision groups are pairwise disjoint bitmasks, so membership
/// and filter unions never conflate two kinds of body.
pub proof fn lemma_collision_groups_disjoint()
    ensures
        PITCH_LINES_GROUP & GOAL_POSTS_GROUP == 0,
        PITCH_LINES_GROUP & PLAYERS_GROUP == 0,
        PITCH_LINES_GROUP & STADIUM_WALLS_GROUP == 0,
        PITCH_LINES_GROUP & BALL_GROUP == 0,
        GOAL_POSTS_GROUP & PLAYERS_GROUP == 0,
        GOAL_POSTS_GROUP & STADIUM_WALLS_GROUP == 0,
        GOAL_POSTS_GROUP & BALL_GROUP == 0,
        PLAYERS_GROUP & STADIUM_WALLS_GROUP == 0,
        PLAYERS_GROUP & BALL_GROUP == 0,
        STADIUM_WALLS_GROUP & BALL_GROUP == 0,
{
    assert(1u32 & 2u32 == 0 && 1u32 & 4u32 == 0 && 1u32 & 8u32 == 0 && 1u32 & 16u32 == 0
        && 2u32 & 4u32 == 0 && 2u32 & 8u32 == 0 && 2u32 & 16u32 == 0 && 4u32 & 8u32 == 0
        && 4u32 & 16u32 == 0 && 8u32 & 16u32 == 0) by (bit_vector);
}

/// A player's filter admits the ball and a wall but not a pitch line; the
/// ball's filter admits a pitch line but not a wall. This selective
/// filtering lets boundary geometry coexist without unwanted collisions.
pub proof fn lemma_collision_filters()
    ensures
        PLAYER_COLLISION_GROUP & BALL_GROUP != 0,
        PLAYER_COLLISION_GROUP & STADIUM_WALLS_GROUP != 0,
        PLAYER_COLLISION_GROUP & PLAYERS_GROUP != 0,
        PLAYER_COLLISION_GROUP & GOAL_POSTS_GROUP != 0,
        PLAYER_COLLISION_GROUP & PITCH_LINES_GROUP == 0,
        BALL_COLLISION_GROUP & PLAYERS_GROUP != 0,
        BALL_COLLISION_GROUP & PITCH_LINES_GROUP != 0,
        BALL_COLLISION_GROUP & GOAL_POSTS_GROUP != 0,
        BALL_COLLISION_GROUP & BALL_GROUP != 0,
        BALL_COLLISION_GROUP & STADIUM_WALLS_GROUP == 0,
{
    assert(4u32 | 8u32 | 16u32 | 2u32 == 30u32) by (bit_vector);
    assert(16u32 | 4u32 | 1u32 | 2u32 == 23u32) by (bit_vector);
    assert(PLAYER_COLLISION_GROUP == 30u32);
    assert(BALL_COLLISION_GROUP == 23u32);
    assert(30u32 & 16u32 != 0 && 30u32 & 8u32 != 0 && 30u32 & 4u32 != 0 && 30u32 & 2u32 != 0
        && 30u32 & 1u32 == 0 && 23u32 & 4u32 != 0 && 23u32 & 1u32 != 0 && 23u32 & 2u32 != 0
        && 23u32 & 16u32 != 0 && 23u32 & 8u32 == 0) by (bit_vector);
}

} // verus!
