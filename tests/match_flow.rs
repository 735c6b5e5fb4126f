use ping_pong::components::{
    BallBundle, ConnectionEvent, FromClient, GameData, GameState, MoveDirection, PingPongPlugin,
    PlayerBundle, Ratio, Rgb, S2cMessage, ServerMessage, BALL_WIDTH, MAX_BALL_X, MAX_BALL_Y,
    MAX_PADDLE_Y, MIN_BALL_X, MIN_BALL_Y, MIN_PADDLE_Y, PADDLE_LEFT_X, PADDLE_WIDTH, SPEED,
};
use ping_pong::geometry::Vec2;
use ping_pong::server::ServerWorld;

fn connect(id: u64) -> ConnectionEvent {
    ConnectionEvent::ClientConnected { client_id: id }
}

fn msg(m: S2cMessage) -> ServerMessage {
    ServerMessage { msg: m }
}

fn playing_world() -> ServerWorld {
    let mut w = ServerWorld::new();
    PingPongPlugin::server_event_system(&mut w, &vec![connect(42), connect(7)]);
    w
}

fn no_moves() -> Vec<FromClient> {
    Vec::new()
}

#[test]
fn fresh_server_is_in_lobby_with_centred_ball() {
    let w = ServerWorld::new();
    assert_eq!(w.state, GameState::Lobby);
    assert_eq!(w.data, GameData::default());
    assert!(w.paddles.is_empty());
    assert_eq!(w.ball.position, Vec2::new(0, 0));
    assert_eq!(w.ball.speed, Vec2::new(SPEED, SPEED));
    assert_eq!(w.ball.color, Rgb::white());
}

#[test]
fn first_and_second_connections_fill_slots_and_start() {
    let mut w = ServerWorld::new();
    let first = PingPongPlugin::server_event_system(&mut w, &vec![connect(42)]);
    assert_eq!(first, vec![msg(S2cMessage::ClientJoin(42, 1))]);
    assert_eq!(w.state, GameState::Lobby);
    assert_eq!(w.paddles.len(), 1);
    assert_eq!(w.paddles[0].player, 42);
    assert_eq!(w.paddles[0].position, Vec2::new(-PADDLE_LEFT_X, 0));
    assert_eq!(w.paddles[0].color, Rgb::of_client(42));

    let second = PingPongPlugin::server_event_system(&mut w, &vec![connect(7)]);
    assert_eq!(
        second,
        vec![msg(S2cMessage::ClientJoin(7, 2)), msg(S2cMessage::GameStart(42, 7))]
    );
    assert_eq!(w.state, GameState::Playing);
    assert_eq!(w.paddles.len(), 2);
    assert_eq!(w.paddles[1].player, 7);
    assert_eq!(w.paddles[1].position, Vec2::new(PADDLE_LEFT_X, 0));
    assert_eq!(w.data.actor1, 42);
    assert_eq!(w.data.actor2, 7);
    assert_eq!(w.data.player_count, 2);
}

#[test]
fn third_connection_and_disconnections_change_nothing() {
    let mut w = playing_world();
    let out = PingPongPlugin::server_event_system(
        &mut w,
        &vec![connect(99), ConnectionEvent::ClientDisconnected { client_id: 42 }],
    );
    assert!(out.is_empty());
    assert_eq!(w.state, GameState::Playing);
    assert_eq!(w.paddles.len(), 2);
    assert_eq!(w.data.actor1, 42);
    assert_eq!(w.data.actor2, 7);
}

#[test]
fn paddle_colour_comes_from_client_id() {
    let c = Rgb::of_client(42);
    assert_eq!(c.r, Ratio { num: 19, den: 23 });
    assert_eq!(c.g, Ratio { num: 15, den: 27 });
    assert_eq!(c.b, Ratio { num: 3, den: 39 });
}

#[test]
fn lobby_ticks_move_nothing() {
    let mut w = ServerWorld::new();
    let out = PingPongPlugin::movement_system(&mut w, 1000, &no_moves());
    assert!(out.is_empty());
    assert_eq!(w.ball.position, Vec2::new(0, 0));
}

#[test]
fn ball_flies_by_velocity_times_dt() {
    let mut w = playing_world();
    let out = PingPongPlugin::movement_system(&mut w, 100, &no_moves());
    assert!(out.is_empty());
    assert_eq!(w.ball.position, Vec2::new(15_000, 15_000));
    assert_eq!(w.ball.speed, Vec2::new(SPEED, SPEED));
}

#[test]
fn ball_bounces_off_top_and_stays_inside() {
    let mut w = playing_world();
    w.ball.position = Vec2::new(0, MAX_BALL_Y - 100);
    PingPongPlugin::movement_system(&mut w, 10, &no_moves());
    assert_eq!(w.ball.position.y, MAX_BALL_Y);
    assert_eq!(w.ball.speed.y, -SPEED);
}

#[test]
fn ball_bounces_off_bottom_on_the_exact_bound() {
    let mut w = playing_world();
    w.ball.position = Vec2::new(0, MIN_BALL_Y + 1500);
    w.ball.speed = Vec2::new(SPEED, -SPEED);
    PingPongPlugin::movement_system(&mut w, 10, &no_moves());
    assert_eq!(w.ball.position.y, MIN_BALL_Y);
    assert_eq!(w.ball.speed.y, SPEED);
}

#[test]
fn ball_past_left_bound_scores_for_slot_two() {
    let mut w = playing_world();
    w.ball.position = Vec2::new(MIN_BALL_X - 1, 0);
    w.ball.speed = Vec2::new(-SPEED, SPEED);
    let out = PingPongPlugin::movement_system(&mut w, 0, &no_moves());
    assert_eq!(w.ball.position, Vec2::new(0, 0));
    assert_eq!(w.ball.speed.x, SPEED);
    assert_eq!(w.data.score2, 1);
    assert_eq!(w.data.score1, 0);
    assert_eq!(w.data.round, 1);
    assert_eq!(out, vec![msg(S2cMessage::RoundResult(2))]);
    assert_eq!(w.state, GameState::Playing);
}

#[test]
fn ball_at_right_bound_scores_for_slot_one() {
    let mut w = playing_world();
    w.ball.position = Vec2::new(MAX_BALL_X, 0);
    let out = PingPongPlugin::movement_system(&mut w, 0, &no_moves());
    assert_eq!(w.ball.position, Vec2::new(0, 0));
    assert_eq!(w.ball.speed.x, -SPEED);
    assert_eq!(w.data.score1, 1);
    assert_eq!(w.data.round, 1);
    assert_eq!(out, vec![msg(S2cMessage::RoundResult(1))]);
}

#[test]
fn third_point_ends_the_match_and_freezes_it() {
    let mut w = playing_world();
    w.data.round = 2;
    w.data.score1 = 1;
    w.data.score2 = 1;
    w.ball.position = Vec2::new(MIN_BALL_X - 1, 0);
    let out = PingPongPlugin::movement_system(&mut w, 0, &no_moves());
    assert_eq!(w.data.round, 3);
    assert_eq!(w.data.score2, 2);
    assert_eq!(w.state, GameState::Finished);
    assert_eq!(
        out,
        vec![msg(S2cMessage::RoundResult(2)), msg(S2cMessage::GameEnd)]
    );
    let ball = w.ball;
    let paddles = w.paddles.clone();
    let moves = vec![FromClient { client_id: 42, event: MoveDirection(Vec2::new(0, 1)) }];
    let later = PingPongPlugin::movement_system(&mut w, 500, &moves);
    assert!(later.is_empty());
    assert_eq!(w.ball, ball);
    assert_eq!(w.paddles, paddles);
    assert_eq!(w.state, GameState::Finished);
}

#[test]
fn ball_overlapping_left_paddle_edge_keeps_moving_right() {
    let mut w = playing_world();
    // Ball's left edge one milli-unit into the left paddle's inner edge.
    let x = -PADDLE_LEFT_X + PADDLE_WIDTH / 2 + BALL_WIDTH / 2 - 1;
    w.ball.position = Vec2::new(x, 0);
    w.ball.speed = Vec2::new(SPEED, 0);
    PingPongPlugin::movement_system(&mut w, 0, &no_moves());
    assert_eq!(w.ball.speed.x, SPEED);
}

#[test]
fn ball_hitting_right_paddle_turns_left() {
    let mut w = playing_world();
    w.ball.position = Vec2::new(PADDLE_LEFT_X - 40_000, 0);
    w.ball.speed = Vec2::new(SPEED, SPEED);
    PingPongPlugin::movement_system(&mut w, 10, &no_moves());
    assert_eq!(w.ball.speed.x, -SPEED);
    assert_eq!(w.ball.position, Vec2::new(PADDLE_LEFT_X - 38_500, 1_500));
}

#[test]
fn ball_hitting_left_paddle_turns_right() {
    let mut w = playing_world();
    w.ball.position = Vec2::new(-PADDLE_LEFT_X + 40_000, 0);
    w.ball.speed = Vec2::new(-SPEED, SPEED);
    PingPongPlugin::movement_system(&mut w, 10, &no_moves());
    assert_eq!(w.ball.speed.x, SPEED);
}

#[test]
fn ball_stays_within_field_over_many_ticks() {
    let mut w = playing_world();
    w.ball.speed = Vec2::new(900, -700);
    for _ in 0..200 {
        if w.state != GameState::Playing {
            break;
        }
        PingPongPlugin::movement_system(&mut w, 37, &no_moves());
        assert!(MIN_BALL_Y <= w.ball.position.y && w.ball.position.y <= MAX_BALL_Y);
        assert!(MIN_BALL_X <= w.ball.position.x && w.ball.position.x <= MAX_BALL_X);
    }
    assert_eq!(w.data.score1 + w.data.score2, w.data.round);
}

#[test]
fn paddle_moves_by_speed_times_dt_and_is_clamped() {
    let mut w = playing_world();
    let up = vec![FromClient { client_id: 42, event: MoveDirection(Vec2::new(0, 1)) }];
    PingPongPlugin::movement_system(&mut w, 100, &up);
    assert_eq!(w.paddles[0].position, Vec2::new(-PADDLE_LEFT_X, 15_000));
    assert_eq!(w.paddles[1].position, Vec2::new(PADDLE_LEFT_X, 0));

    let down = vec![FromClient { client_id: 7, event: MoveDirection(Vec2::new(0, -1)) }];
    PingPongPlugin::movement_system(&mut w, 60_000, &down);
    assert_eq!(w.paddles[1].position.y, MIN_PADDLE_Y);
}

#[test]
fn paddle_inputs_apply_in_order() {
    let mut w = playing_world();
    let moves = vec![
        FromClient { client_id: 42, event: MoveDirection(Vec2::new(0, 1)) },
        FromClient { client_id: 42, event: MoveDirection(Vec2::new(0, 1)) },
        FromClient { client_id: 42, event: MoveDirection(Vec2::new(0, -1)) },
        FromClient { client_id: 5, event: MoveDirection(Vec2::new(0, 1)) },
    ];
    PingPongPlugin::movement_system(&mut w, 1000, &moves);
    assert_eq!(w.paddles[0].position.y, MAX_PADDLE_Y - 150_000);
    assert_eq!(w.paddles[1].position.y, 0);
}

#[test]
fn zero_direction_leaves_paddle_in_place() {
    let mut w = playing_world();
    w.paddles[0].position.y = 12_345;
    let moves = vec![FromClient { client_id: 42, event: MoveDirection(Vec2::new(0, 0)) }];
    PingPongPlugin::movement_system(&mut w, 1000, &moves);
    assert_eq!(w.paddles[0].position, Vec2::new(-PADDLE_LEFT_X, 12_345));
}

#[test]
fn move_paddle_clamps_any_start() {
    let mut p = PlayerBundle::new(1, Vec2::new(0, i64::MAX), Rgb::white());
    ping_pong::server::move_paddle(&mut p, MoveDirection(Vec2::new(0, 1)), u32::MAX);
    assert_eq!(p.position.y, MAX_PADDLE_Y);
    let mut q = PlayerBundle::new(1, Vec2::new(0, i64::MIN), Rgb::white());
    ping_pong::server::move_paddle(&mut q, MoveDirection(Vec2::new(0, 0)), 5);
    assert_eq!(q.position.y, MIN_PADDLE_Y);
}

#[test]
fn ball_bundle_starts_at_speed() {
    let b = BallBundle::new(Vec2::new(3, 4), Rgb::white());
    assert_eq!(b.position, Vec2::new(3, 4));
    assert_eq!(b.speed, Vec2::new(150, 150));
    let w = PingPongPlugin::init_system_server();
    assert_eq!(w.position, Vec2::zero());
}
