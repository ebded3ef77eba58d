use footballers::arbiter::{Arbiter, Score};
use footballers::client::ClientGame;
use footballers::components::{GameMsg, GameQuery};
use footballers::constants::RESET_TIME;
use footballers::entities::{Circle, Player};
use footballers::input::PlayerInput;
use footballers::game::{FootballersGame, Game};
use footballers::host::HostGame;
use footballers::protocol::Message;

#[test]
fn fresh_client_is_empty() {
    let c = ClientGame::new();
    assert!(c.edges.is_empty() && c.goal_posts.is_empty() && c.players.is_empty());
    assert_eq!((c.ball.x, c.ball.y, c.ball.radius), (0, 0, 15));
    assert_eq!((c.score.red_score, c.score.blue_score), (0, 0));
    assert!(!c.red_scored && !c.blue_scored && !c.game_ended);
    assert_eq!(c.timer, 0);
}

#[test]
fn init_snapshot_replaces_collections() {
    let mut c = ClientGame::new();
    let host = HostGame::new();
    c.apply_message(host.init_message());
    assert_eq!(c.edges.len(), 12);
    assert_eq!(c.goal_posts.len(), 4);
    assert_eq!(c.players.len(), 1);
    assert_eq!((c.ball.x, c.ball.y), (500, 300));
    assert_eq!(c.timer, 0);
}

#[test]
fn state_update_replaces_positions_only() {
    let mut c = ClientGame::new();
    c.apply_message(Message::GameState {
        players: vec![Circle::new(123, 234, 25, true, 1)],
        ball: Circle::new(400, 200, 15, false, -1),
    });
    assert_eq!(c.players.len(), 1);
    assert_eq!((c.players[0].x, c.players[0].y), (123, 234));
    assert_eq!((c.ball.x, c.ball.y), (400, 200));
    assert_eq!((c.score.red_score, c.score.blue_score), (0, 0));
    assert!(!c.game_ended);
}

#[test]
fn goal_announcement_starts_celebration() {
    let mut c = ClientGame::new();
    c.apply_message(Message::GoalScored { red_scored: false, score: Score::new(1, 2) });
    assert_eq!((c.score.red_score, c.score.blue_score), (1, 2));
    assert!(!c.red_scored && c.blue_scored);
    assert_eq!(c.timer, RESET_TIME);
    // The celebration timer counts down one per tick...
    c.tick();
    assert_eq!(c.timer, RESET_TIME - 1);
    assert!(c.blue_scored);
    // ...and once it expires the flags come down.
    for _ in 0..RESET_TIME {
        c.tick();
    }
    assert_eq!(c.timer, 0);
    assert!(!c.red_scored && !c.blue_scored);
}

#[test]
fn end_message_is_terminal_flag() {
    let mut c = ClientGame::new();
    c.apply_message(Message::GameEnded);
    assert!(c.game_ended);
    assert!(c.ended());
}

#[test]
fn game_trait_drives_host_and_client() {
    let mut g = FootballersGame::Host(HostGame::new());
    g.init();
    assert!(!g.ended());
    g.tick();
    let mut g = FootballersGame::Client(ClientGame::new());
    g.init();
    g.tick();
    assert!(!g.ended());
}

#[test]
fn host_game_trait_tick_checks_then_simulates() {
    let mut host = HostGame::new();
    host.sync_ball_state(99, 300, 0, 0);
    Game::tick(&mut host);
    // The match-state check ran first: blue is credited and the pause is on.
    assert_eq!(host.arbiter.blue_score, 1);
    assert!(host.arbiter.reset_timer > 0);
    assert!(!Game::ended(&host));
}

#[test]
fn arbiter_transitions_are_exact() {
    let mut a = Arbiter::new();
    a.set_red_scored();
    assert!(a.red_scored && !a.blue_scored && a.send_score_message);
    assert_eq!((a.red_score, a.blue_score), (1, 0));
    a.set_blue_scored();
    assert_eq!((a.red_score, a.blue_score), (1, 1));
    a.reset_who_scored();
    assert!(!a.red_scored && !a.blue_scored);
    assert_eq!((a.red_score, a.blue_score), (1, 1));
}

#[test]
fn player_reset_position_honours_offsets() {
    let mut p = Player::new(500, 100, 25, true, 4);
    p.reset_position(10, -20);
    assert_eq!((p.x, p.y, p.vx, p.vy), (210, 280, 0, 0));
    assert!(p.red);
    assert_eq!(p.number, 4);
    let mut q = Player::new(500, 100, 25, false, 2);
    q.reset_position(0, 0);
    assert_eq!((q.x, q.y), (800, 300));
}

#[test]
fn player_input_round_trip() {
    let idle = PlayerInput::default();
    assert!(!idle.up && !idle.down && !idle.left && !idle.right && !idle.shoot);
    let held = PlayerInput::new(true, false, false, true, true);
    assert!(held.up && !held.down && held.right && held.shoot);
}

#[test]
fn game_query_holds_its_parts() {
    let q = GameQuery::new(String::from("abc123"), true);
    assert_eq!(q.session_id, "abc123");
    assert!(q.is_host);
    let _msgs = [GameMsg::CopyLink, GameMsg::Init, GameMsg::Tick];
}
