use footballers::constants::{MAX_GOALS, RESET_TIME};
use footballers::host::HostGame;
use footballers::input::PlayerInput;
use footballers::protocol::Message;

fn shoot_only() -> PlayerInput {
    PlayerInput::new(false, false, false, false, true)
}

#[test]
fn new_game_starts_at_kickoff() {
    let g = HostGame::new();
    assert_eq!((g.host_player.x, g.host_player.y), (200, 300));
    assert!(g.host_player.red);
    assert_eq!(g.host_player.number, 1);
    assert_eq!((g.ball.x, g.ball.y, g.ball.vx, g.ball.vy), (500, 300, 0, 0));
    assert_eq!(g.players.len(), 0);
    assert_eq!(g.edges.len(), 12);
    assert_eq!(g.goal_posts.len(), 4);
    assert_eq!((g.arbiter.red_score, g.arbiter.blue_score), (0, 0));
    assert!(!g.arbiter.game_ended);
}

#[test]
fn speed_stays_clamped_under_held_input() {
    let mut g = HostGame::new();
    let held = PlayerInput::new(true, false, true, false, false);
    for _ in 0..50 {
        g.set_host_input(held);
        g.tick();
        let p = &g.host_player;
        assert!(p.vx * p.vx + p.vy * p.vy <= 10 * 10);
        assert!(p.x >= 0 && p.x <= 1000 && p.y >= 0 && p.y <= 600);
        let b = &g.ball;
        assert!(b.vx * b.vx + b.vy * b.vy <= 20 * 20);
    }
}

#[test]
fn one_tick_of_held_right_moves_exactly() {
    let mut g = HostGame::new();
    g.set_host_input(PlayerInput::new(false, false, false, true, false));
    g.tick();
    // One impulse of 3, under the limit, damped by a tenth (truncated: 0):
    // the host moves 3 units right from its kickoff spot.
    assert_eq!((g.host_player.vx, g.host_player.vy), (3, 0));
    assert_eq!((g.host_player.x, g.host_player.y), (203, 300));
}

#[test]
fn up_wins_over_down_and_left_over_right() {
    let mut g = HostGame::new();
    g.set_host_input(PlayerInput::new(true, true, true, true, false));
    g.tick();
    assert_eq!((g.host_player.vx, g.host_player.vy), (-3, -3));
}

#[test]
fn shoot_kicks_ball_once_per_press() {
    let mut g = HostGame::new();
    // Host at (200, 300); put the ball 20 units to its right.
    g.sync_ball_state(220, 300, 0, 0);
    g.set_host_input(shoot_only());
    g.tick();
    // Kick at full ball speed along +x, then one tick of damping: 20 -> 19.
    assert_eq!((g.ball.vx, g.ball.vy), (19, 0));
    assert_eq!(g.ball.x, 239);
    assert!(g.host_player.last_tick_shot);

    // Holding shoot must not kick again: the ball merely rolls on.
    g.set_host_input(shoot_only());
    g.tick();
    assert_eq!((g.ball.vx, g.ball.vy), (19, 0));
    assert_eq!(g.ball.x, 258);

    // Release re-arms the edge detector.
    g.set_host_input(PlayerInput::default());
    g.tick();
    assert!(!g.host_player.last_tick_shot);

    // A new press within distance kicks exactly once more.
    g.sync_ball_state(220, 300, 0, 0);
    g.set_host_input(shoot_only());
    g.tick();
    assert_eq!((g.ball.vx, g.ball.vy), (19, 0));
    assert_eq!(g.ball.x, 239);
}

#[test]
fn shoot_out_of_range_moves_nothing() {
    let mut g = HostGame::new();
    // Ball at the centre, 300 units from the host: out of shooting distance.
    g.set_host_input(shoot_only());
    g.tick();
    assert_eq!((g.ball.vx, g.ball.vy), (0, 0));
    // The press is still consumed.
    assert!(g.host_player.last_tick_shot);
}

#[test]
fn team_assignment_balances_with_host_on_red() {
    let mut g = HostGame::new();
    // Host is red, so the first two joiners go blue, the third red.
    g.add_player(11);
    g.add_player(22);
    g.add_player(33);
    assert!(!g.players[0].1.red);
    assert_eq!(g.players[0].1.number, 1);
    assert_eq!((g.players[0].1.x, g.players[0].1.y), (800, 300));
    assert!(!g.players[1].1.red);
    assert_eq!(g.players[1].1.number, 2);
    assert!(g.players[2].1.red);
    assert_eq!(g.players[2].1.number, 2);
    assert_eq!((g.players[2].1.x, g.players[2].1.y), (200, 300));
}

#[test]
fn add_player_replaces_reused_id() {
    let mut g = HostGame::new();
    g.add_player(7);
    g.add_player(7);
    assert_eq!(g.players.len(), 1);
    assert_eq!(g.players[0].0, 7);
}

#[test]
fn input_for_unknown_peer_is_dropped() {
    let mut g = HostGame::new();
    g.add_player(1);
    assert!(g.set_player_input(1, shoot_only()));
    assert!(!g.set_player_input(99, shoot_only()));
    assert!(g.players[0].1.current_input.shoot);
}

#[test]
fn simultaneous_shots_last_processed_wins() {
    let mut g = HostGame::new();
    g.add_player(1);
    g.add_player(2);
    // Both within shooting distance, on opposite sides of the ball.
    assert!(g.sync_player_state(1, 480, 300, 0, 0));
    assert!(g.sync_player_state(2, 520, 300, 0, 0));
    assert!(g.set_player_input(1, shoot_only()));
    assert!(g.set_player_input(2, shoot_only()));
    g.tick();
    // Player 1 kicks +x, player 2 (processed later) overwrites with -x;
    // one tick of damping brings 20 to 19.
    assert_eq!((g.ball.vx, g.ball.vy), (-19, 0));
    assert_eq!(g.ball.x, 481);
    assert!(g.players[0].1.last_tick_shot && g.players[1].1.last_tick_shot);
}

#[test]
fn ball_past_left_line_scores_for_blue_and_resets() {
    let mut g = HostGame::new();
    // Move the host off its spot so the reset is observable.
    g.set_host_input(PlayerInput::new(true, false, false, false, false));
    for _ in 0..10 {
        g.tick();
    }
    assert_ne!(g.host_player.y, 300);
    g.sync_ball_state(99, 300, 0, 0);
    g.check_timer();
    assert_eq!(g.arbiter.blue_score, 1);
    assert_eq!(g.arbiter.red_score, 0);
    assert!(g.arbiter.blue_scored && !g.arbiter.red_scored);
    assert_eq!(g.arbiter.reset_timer, RESET_TIME);
    // The pending announcement goes out instead of the routine update.
    match g.host_send_state() {
        Some(Message::GoalScored { red_scored, score }) => {
            assert!(!red_scored);
            assert_eq!((score.red_score, score.blue_score), (0, 1));
        },
        _ => panic!("expected the goal announcement"),
    }
    // The pause runs its fixed length, then everything is back at kickoff.
    for _ in 0..RESET_TIME {
        g.check_timer();
    }
    assert!(!g.arbiter.game_ended);
    assert_eq!(g.arbiter.reset_timer, 0);
    assert!(!g.arbiter.blue_scored && !g.arbiter.red_scored);
    assert_eq!((g.ball.x, g.ball.y, g.ball.vx, g.ball.vy), (500, 300, 0, 0));
    assert_eq!((g.host_player.x, g.host_player.y), (200, 300));
    assert_eq!((g.host_player.vx, g.host_player.vy), (0, 0));
    // Score preserved across the reset.
    assert_eq!(g.arbiter.blue_score, 1);
}

#[test]
fn reaching_goal_target_ends_match_and_announces_once() {
    let mut g = HostGame::new();
    for goal in 0..MAX_GOALS {
        g.sync_ball_state(950, 300, 0, 0);
        g.check_timer();
        assert_eq!(g.arbiter.red_score, goal + 1);
        for _ in 0..RESET_TIME {
            g.check_timer();
        }
    }
    assert!(g.arbiter.game_ended);
    assert_eq!(g.arbiter.red_score, MAX_GOALS);
    // The terminal broadcast goes out exactly once; afterwards, silence.
    match g.host_send_state() {
        Some(Message::GameEnded) => {},
        _ => panic!("expected the end-of-match announcement"),
    }
    assert!(g.host_send_state().is_none());
    // Ended is terminal: nothing changes the score any more.
    g.sync_ball_state(950, 300, 0, 0);
    g.check_timer();
    g.tick();
    g.check_timer();
    assert_eq!(g.arbiter.red_score, MAX_GOALS);
    assert_eq!(g.arbiter.blue_score, 0);
    assert!(g.arbiter.game_ended);
}

#[test]
fn routine_broadcast_carries_all_circles() {
    let mut g = HostGame::new();
    g.add_player(5);
    match g.host_send_state() {
        Some(Message::GameState { players, ball }) => {
            // The remote player first, the host last.
            assert_eq!(players.len(), 2);
            assert_eq!(players[0].player_number, 1);
            assert!(!players[0].red);
            assert_eq!(players[1].player_number, 1);
            assert!(players[1].red);
            assert_eq!((ball.x, ball.y, ball.radius), (500, 300, 15));
            assert_eq!(ball.player_number, -1);
        },
        _ => panic!("expected the routine state update"),
    }
}

#[test]
fn init_message_holds_full_snapshot() {
    let g = HostGame::new();
    match g.init_message() {
        Message::GameInit { edges, goal_posts, players, ball } => {
            assert_eq!(edges.len(), 12);
            assert_eq!(goal_posts.len(), 4);
            assert_eq!(players.len(), 1);
            assert_eq!((ball.x, ball.y), (500, 300));
        },
        _ => panic!("expected the init snapshot"),
    }
}

#[test]
fn sync_ball_state_reimposes_bounds_and_speed() {
    let mut g = HostGame::new();
    g.sync_ball_state(5000, -50, 100, 0);
    assert_eq!((g.ball.x, g.ball.y), (1000, 0));
    assert_eq!((g.ball.vx, g.ball.vy), (20, 0));
}

#[test]
fn sync_player_states_reimpose_bounds_and_speed() {
    let mut g = HostGame::new();
    g.sync_host_state(-10, 700, 30, 40);
    assert_eq!((g.host_player.x, g.host_player.y), (0, 600));
    // 30-40-50 rescaled onto the player limit 10 gives 6-8.
    assert_eq!((g.host_player.vx, g.host_player.vy), (6, 8));
    g.add_player(3);
    assert!(g.sync_player_state(3, 400, 200, 0, -30));
    assert_eq!((g.players[0].1.x, g.players[0].1.y), (400, 200));
    assert_eq!((g.players[0].1.vx, g.players[0].1.vy), (0, -10));
    // An unknown id is reported and nothing changes.
    assert!(!g.sync_player_state(99, 1, 1, 0, 0));
}

#[test]
fn getters_report_arbiter_fields() {
    let mut g = HostGame::new();
    assert!(!g.get_red_scored());
    assert!(!g.get_blue_scored());
    assert!(!g.get_game_ended());
    let s = g.get_score();
    assert_eq!((s.red_score, s.blue_score), (0, 0));
    g.sync_ball_state(950, 300, 0, 0);
    g.check_timer();
    assert!(g.get_red_scored());
    assert_eq!(g.get_score().red_score, 1);
}
