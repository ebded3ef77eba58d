use footballers::constants::{
    BALL_RADIUS, GAME_CANVAS_HEIGHT, GAME_CANVAS_WIDTH, GOAL_POSTS_GROUP, PITCH_LEFT_LINE,
    PITCH_LINES_GROUP, PITCH_RIGHT_LINE, PLAYERS_GROUP, STADIUM_WALLS_GROUP, BALL_GROUP,
};
use footballers::entities::Edge;
use footballers::geometry::{create_goals_posts, create_pitch_lines, create_stadium_walls};
use footballers::math::{clamp_coord, damp_component, half, isqrt, kick_velocity, limit_speed};

#[test]
fn isqrt_exact_values() {
    assert_eq!(isqrt(0), 0);
    assert_eq!(isqrt(1), 1);
    assert_eq!(isqrt(24), 4);
    assert_eq!(isqrt(25), 5);
    assert_eq!(isqrt(26), 5);
    assert_eq!(isqrt(2_500), 50);
}

#[test]
fn limit_speed_rescales_fast_vector() {
    // 30-40-50 triangle: rescaled onto the limit 10 gives 6-8-10.
    assert_eq!(limit_speed(30, 40, 10), (6, 8));
    // A vector within the limit is untouched.
    assert_eq!(limit_speed(3, 4, 10), (3, 4));
    // A vector exactly at the limit is untouched.
    assert_eq!(limit_speed(6, 8, 10), (6, 8));
    // Negative components keep their direction.
    assert_eq!(limit_speed(-30, 40, 10), (-6, 8));
    assert_eq!(limit_speed(0, 0, 10), (0, 0));
}

#[test]
fn kick_velocity_points_away_at_top_speed() {
    // Displacement 3-4-5: the ball leaves at 20 along it, so 12-16-20.
    assert_eq!(kick_velocity(3, 4, 20), (12, 16));
    assert_eq!(kick_velocity(-3, -4, 20), (-12, -16));
    // Axis-aligned kick.
    assert_eq!(kick_velocity(20, 0, 20), (20, 0));
}

#[test]
fn damp_component_truncates_toward_zero() {
    assert_eq!(damp_component(20, 20), 19);
    assert_eq!(damp_component(-20, 20), -19);
    // Below one part there is nothing to lose.
    assert_eq!(damp_component(19, 20), 19);
    assert_eq!(damp_component(0, 20), 0);
    assert_eq!(damp_component(10, 10), 9);
}

#[test]
fn clamp_and_half_behave() {
    assert_eq!(clamp_coord(-5, 0, 1000), 0);
    assert_eq!(clamp_coord(1005, 0, 1000), 1000);
    assert_eq!(clamp_coord(500, 0, 1000), 500);
    assert_eq!(half(5), 2);
    assert_eq!(half(170), 85);
}

#[test]
fn pitch_lines_layout_is_exact() {
    let edges = create_pitch_lines();
    assert_eq!(edges.len(), 12);
    // Left goal line above the goal mouth: centred at (100, 135), 5 x 170.
    let e = &edges[0];
    assert_eq!((e.x, e.y, e.width, e.height, e.white), (98, 50, 5, 170, true));
    // Left goal back line: centred at (50, 300), 5 x 160, not painted white.
    let e = &edges[2];
    assert_eq!((e.x, e.y, e.width, e.height, e.white), (48, 220, 5, 160, false));
    // Top touch line: centred at (500, 50), 800 x 5.
    let e = &edges[10];
    assert_eq!((e.x, e.y, e.width, e.height, e.white), (100, 48, 800, 5, true));
    // Bottom touch line: centred at (500, 550).
    let e = &edges[11];
    assert_eq!((e.x, e.y, e.width, e.height, e.white), (100, 548, 800, 5, true));
}

#[test]
fn goal_posts_layout_is_exact() {
    let posts = create_goals_posts();
    assert_eq!(posts.len(), 4);
    assert_eq!((posts[0].x, posts[0].y, posts[0].radius, posts[0].red), (100, 220, 15, true));
    assert_eq!((posts[1].x, posts[1].y, posts[1].red), (100, 380, true));
    assert_eq!((posts[2].x, posts[2].y, posts[2].red), (900, 220, false));
    assert_eq!((posts[3].x, posts[3].y, posts[3].red), (900, 380, false));
    assert_eq!(posts[0].player_number, -1);
}

#[test]
fn stadium_walls_outline_the_stadium() {
    let walls = create_stadium_walls();
    assert_eq!(walls.len(), 4);
    assert_eq!((walls[0].x, walls[0].y, walls[0].width, walls[0].height), (0, 0, 0, 600));
    assert_eq!((walls[1].x, walls[1].y, walls[1].width, walls[1].height), (1000, 0, 0, 600));
    assert_eq!((walls[2].x, walls[2].y, walls[2].width, walls[2].height), (0, 0, 1000, 0));
    assert_eq!((walls[3].x, walls[3].y, walls[3].width, walls[3].height), (0, 600, 1000, 0));
}

#[test]
fn edge_new_stores_top_left_corner() {
    let e = Edge::new(500, 300, 10, 6, true);
    assert_eq!((e.x, e.y, e.width, e.height, e.white), (495, 297, 10, 6, true));
}

#[test]
fn collision_groups_are_disjoint_bits() {
    let groups = [
        PITCH_LINES_GROUP,
        GOAL_POSTS_GROUP,
        PLAYERS_GROUP,
        STADIUM_WALLS_GROUP,
        BALL_GROUP,
    ];
    for (i, a) in groups.iter().enumerate() {
        for (j, b) in groups.iter().enumerate() {
            if i != j {
                assert_eq!(a & b, 0);
            }
        }
    }
}

#[test]
fn canvas_matches_stadium() {
    assert_eq!(GAME_CANVAS_WIDTH, 1000);
    assert_eq!(GAME_CANVAS_HEIGHT, 600);
    assert!(PITCH_LEFT_LINE < PITCH_RIGHT_LINE);
}
