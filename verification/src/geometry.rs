//! Static pitch geometry: the twelve boundary segments (touch lines, goal
//! lines, and goal-mouth funnels), the four goal posts, and the four
//! stadium walls. All are created once at world initialization and are
//! immutable afterward; an external rigid-body engine receives them as
//! colliders, and clients receive the edges and posts in the init snapshot.

use vstd::prelude::*;
use vstd::assert_seqs_equal;
use crate::constants::{
    BALL_RADIUS, GOAL_BREADTH, GOAL_DEPTH, PITCH_BOTTOM_LINE, PITCH_HEIGHT, PITCH_LEFT_LINE,
    PITCH_LINE_WIDTH, PITCH_RIGHT_LINE, PITCH_TOP_LINE, PITCH_VERTICAL_LINE_HEIGHT, PITCH_WIDTH,
    STADIUM_CENTER_X, STADIUM_CENTER_Y, STADIUM_HEIGHT, STADIUM_WIDTH,
};
use crate::entities::{edge_from_center, Circle, Edge};
use crate::math::half;

verus! {

/// The twelve pitch boundary segments, in creation order: the left goal
/// line's two vertical segments, the left goal mouth (back and two funnel
/// segments), the same four on the right, then the top and bottom touch
/// lines. `white` marks painted boundary lines; goal-mouth segments are not
/// white.
pub open spec fn pitch_lines_layout() -> Seq<Edge> {
    seq![
        edge_from_center(PITCH_LEFT_LINE as int,
            (STADIUM_HEIGHT - GOAL_BREADTH - PITCH_VERTICAL_LINE_HEIGHT) as int / 2,
            PITCH_LINE_WIDTH as int, PITCH_VERTICAL_LINE_HEIGHT as int, true),
        edge_from_center(PITCH_LEFT_LINE as int,
            (STADIUM_HEIGHT + GOAL_BREADTH + PITCH_VERTICAL_LINE_HEIGHT) as int / 2,
            PITCH_LINE_WIDTH as int, PITCH_VERTICAL_LINE_HEIGHT as int, true),
        edge_from_center((PITCH_LEFT_LINE - GOAL_DEPTH) as int, STADIUM_CENTER_Y as int,
            PITCH_LINE_WIDTH as int, GOAL_BREADTH as int, false),
        edge_from_center(PITCH_LEFT_LINE - GOAL_DEPTH as int / 2,
            (STADIUM_HEIGHT - GOAL_BREADTH) as int / 2,
            GOAL_DEPTH as int, PITCH_LINE_WIDTH as int, false),
        edge_from_center(PITCH_LEFT_LINE - GOAL_DEPTH as int / 2,
            (STADIUM_HEIGHT + GOAL_BREADTH) as int / 2,
            GOAL_DEPTH as int, PITCH_LINE_WIDTH as int, false),
        edge_from_center(PITCH_RIGHT_LINE as int,
            (STADIUM_HEIGHT - GOAL_BREADTH - PITCH_VERTICAL_LINE_HEIGHT) as int / 2,
            PITCH_LINE_WIDTH as int, PITCH_VERTICAL_LINE_HEIGHT as int, true),
        edge_from_center(PITCH_RIGHT_LINE as int,
            (STADIUM_HEIGHT + GOAL_BREADTH + PITCH_VERTICAL_LINE_HEIGHT) as int / 2,
            PITCH_LINE_WIDTH as int, PITCH_VERTICAL_LINE_HEIGHT as int, true),
        edge_from_center((PITCH_RIGHT_LINE + GOAL_DEPTH) as int, STADIUM_CENTER_Y as int,
            PITCH_LINE_WIDTH as int, GOAL_BREADTH as int, false),
        edge_from_center(PITCH_RIGHT_LINE + GOAL_DEPTH as int / 2,
            (STADIUM_HEIGHT - GOAL_BREADTH) as int / 2,
            GOAL_DEPTH as int, PITCH_LINE_WIDTH as int, false),
        edge_from_center(PITCH_RIGHT_LINE + GOAL_DEPTH as int / 2,
            (STADIUM_HEIGHT + GOAL_BREADTH) as int / 2,
            GOAL_DEPTH as int, PITCH_LINE_WIDTH as int, false),
        edge_from_center(STADIUM_CENTER_X as int, PITCH_TOP_LINE as int,
            PITCH_WIDTH as int, PITCH_LINE_WIDTH as int, true),
        edge_from_center(STADIUM_CENTER_X as int, PITCH_BOTTOM_LINE as int,
            PITCH_WIDTH as int, PITCH_LINE_WIDTH as int, true),
    ]
}

/// The four goal posts: two red posts flush with the left goal mouth, two
/// blue posts flush with the right one, each a ball-sized circle.
pub open spec fn goal_posts_layout() -> Seq<Circle> {
    seq![
        Circle {
            x: PITCH_LEFT_LINE,
            y: (PITCH_TOP_LINE + PITCH_HEIGHT as int / 2 - GOAL_BREADTH as int / 2) as i64,
            radius: BALL_RADIUS,
            red: true,
            player_number: -1i64,
        },
        Circle {
            x: PITCH_LEFT_LINE,
            y: (PITCH_TOP_LINE + PITCH_HEIGHT as int / 2 + GOAL_BREADTH as int / 2) as i64,
            radius: BALL_RADIUS,
            red: true,
            player_number: -1i64,
        },
        Circle {
            x: PITCH_RIGHT_LINE,
            y: (PITCH_TOP_LINE + PITCH_HEIGHT as int / 2 - GOAL_BREADTH as int / 2) as i64,
            radius: BALL_RADIUS,
            red: false,
            player_number: -1i64,
        },
        Circle {
            x: PITCH_RIGHT_LINE,
            y: (PITCH_TOP_LINE + PITCH_HEIGHT as int / 2 + GOAL_BREADTH as int / 2) as i64,
            radius: BALL_RADIUS,
            red: false,
            player_number: -1i64,
        },
    ]
}

/// The four stadium walls: degenerate rectangles along the stadium's
/// outline (left, right, top, bottom). They exist only as colliders and are
/// never drawn, so none is white.
pub open spec fn stadium_walls_layout() -> Seq<Edge> {
    seq![
        edge_from_center(0, STADIUM_CENTER_Y as int, 0, STADIUM_HEIGHT as int, false),
        edge_from_center(STADIUM_WIDTH as int, STADIUM_CENTER_Y as int, 0, STADIUM_HEIGHT as int,
            false),
        edge_from_center(STADIUM_CENTER_X as int, 0, STADIUM_WIDTH as int, 0, false),
        edge_from_center(STADIUM_CENTER_X as int, STADIUM_HEIGHT as int, STADIUM_WIDTH as int, 0,
            false),
    ]
}

/// Builds the twelve pitch boundary segments.
pub fn create_pitch_lines() -> (r: Vec<Edge>)
    ensures
        r@ == pitch_lines_layout(),
{
    let mut edges: Vec<Edge> = Vec::new();
    let vertical_high_y = half(STADIUM_HEIGHT - GOAL_BREADTH - PITCH_VERTICAL_LINE_HEIGHT);
    let vertical_low_y = half(STADIUM_HEIGHT + GOAL_BREADTH + PITCH_VERTICAL_LINE_HEIGHT);
    let funnel_high_y = half(STADIUM_HEIGHT - GOAL_BREADTH);
    let funnel_low_y = half(STADIUM_HEIGHT + GOAL_BREADTH);
    let half_goal_depth = half(GOAL_DEPTH);

    // left goal line, above and below the goal mouth
    edges.push(Edge::new(PITCH_LEFT_LINE, vertical_high_y, PITCH_LINE_WIDTH,
        PITCH_VERTICAL_LINE_HEIGHT, true));
    edges.push(Edge::new(PITCH_LEFT_LINE, vertical_low_y, PITCH_LINE_WIDTH,
        PITCH_VERTICAL_LINE_HEIGHT, true));
    // left goal mouth: back line and the two funnel segments
    edges.push(Edge::new(PITCH_LEFT_LINE - GOAL_DEPTH, STADIUM_CENTER_Y, PITCH_LINE_WIDTH,
        GOAL_BREADTH, false));
    edges.push(Edge::new(PITCH_LEFT_LINE - half_goal_depth, funnel_high_y, GOAL_DEPTH,
        PITCH_LINE_WIDTH, false));
    edges.push(Edge::new(PITCH_LEFT_LINE - half_goal_depth, funnel_low_y, GOAL_DEPTH,
        PITCH_LINE_WIDTH, false));

    // right goal line, above and below the goal mouth
    edges.push(Edge::new(PITCH_RIGHT_LINE, vertical_high_y, PITCH_LINE_WIDTH,
        PITCH_VERTICAL_LINE_HEIGHT, true));
    edges.push(Edge::new(PITCH_RIGHT_LINE, vertical_low_y, PITCH_LINE_WIDTH,
        PITCH_VERTICAL_LINE_HEIGHT, true));
    // right goal mouth: back line and the two funnel segments
    edges.push(Edge::new(PITCH_RIGHT_LINE + GOAL_DEPTH, STADIUM_CENTER_Y, PITCH_LINE_WIDTH,
        GOAL_BREADTH, false));
    edges.push(Edge::new(PITCH_RIGHT_LINE + half_goal_depth, funnel_high_y, GOAL_DEPTH,
        PITCH_LINE_WIDTH, false));
    edges.push(Edge::new(PITCH_RIGHT_LINE + half_goal_depth, funnel_low_y, GOAL_DEPTH,
        PITCH_LINE_WIDTH, false));

    // top and bottom touch lines
    edges.push(Edge::new(STADIUM_CENTER_X, PITCH_TOP_LINE, PITCH_WIDTH, PITCH_LINE_WIDTH, true));
    edges.push(Edge::new(STADIUM_CENTER_X, PITCH_BOTTOM_LINE, PITCH_WIDTH, PITCH_LINE_WIDTH,
        true));

    proof {
        assert_seqs_equal!(edges@ == pitch_lines_layout());
    }
    edges
}

/// Builds the four goal posts.
pub fn create_goals_posts() -> (r: Vec<Circle>)
    ensures
        r@ == goal_posts_layout(),
{
    let mut goal_posts: Vec<Circle> = Vec::new();
    let upper_post_y = PITCH_TOP_LINE + half(PITCH_HEIGHT) - half(GOAL_BREADTH);
    let lower_post_y = PITCH_TOP_LINE + half(PITCH_HEIGHT) + half(GOAL_BREADTH);

    // left, red goal
    goal_posts.push(Circle::new(PITCH_LEFT_LINE, upper_post_y, BALL_RADIUS, true, -1));
    goal_posts.push(Circle::new(PITCH_LEFT_LINE, lower_post_y, BALL_RADIUS, true, -1));

    // right, blue goal
    goal_posts.push(Circle::new(PITCH_RIGHT_LINE, upper_post_y, BALL_RADIUS, false, -1));
    goal_posts.push(Circle::new(PITCH_RIGHT_LINE, lower_post_y, BALL_RADIUS, false, -1));

    proof {
        assert_seqs_equal!(goal_posts@ == goal_posts_layout());
    }
    goal_posts
}

/// Builds the four stadium walls.
pub fn create_stadium_walls() -> (r: Vec<Edge>)
    ensures
        r@ == stadium_walls_layout(),
{
    let mut walls: Vec<Edge> = Vec::new();
    walls.push(Edge::new(0, STADIUM_CENTER_Y, 0, STADIUM_HEIGHT, false));
    walls.push(Edge::new(STADIUM_WIDTH, STADIUM_CENTER_Y, 0, STADIUM_HEIGHT, false));
    walls.push(Edge::new(STADIUM_CENTER_X, 0, STADIUM_WIDTH, 0, false));
    walls.push(Edge::new(STADIUM_CENTER_X, STADIUM_HEIGHT, STADIUM_WIDTH, 0, false));
    proof {
        assert_seqs_equal!(walls@ == stadium_walls_layout());
    }
    walls
}

} // verus!
