//! The match's data: field dimensions, entities, match state and the messages
//! exchanged between server and clients.
use vstd::prelude::*;

use crate::geometry::Vec2;

verus! {

/// Port the server listens on.
pub const PORT: u16 = 5000;

/// Protocol identifier shared by server and clients.
pub const PROTOCOL_ID: u64 = 0;

pub const SCREEN_WIDTH: i64 = 1_280_000;

pub const SCREEN_HEIGHT: i64 = 720_000;

pub const PADDLE_WIDTH: i64 = 50_000;

pub const PADDLE_HEIGHT: i64 = 250_000;

pub const BALL_WIDTH: i64 = 50_000;

/// Speed of paddles, and of the ball on each axis, in milli-units per
/// millisecond.
pub const SPEED: i64 = 150;

/// Distance of each paddle's centre from the vertical centre line:
/// Half the screen width less half the paddle width.
pub const PADDLE_LEFT_X: i64 = 615_000;

/// Half the screen height less half the paddle height.
pub const MAX_PADDLE_Y: i64 = 235_000;

pub const MIN_PADDLE_Y: i64 = -MAX_PADDLE_Y;

/// Half the screen height less half the ball width.
pub const MAX_BALL_Y: i64 = 335_000;

pub const MIN_BALL_Y: i64 = -MAX_BALL_Y;

/// Half the screen width less half the ball width.
pub const MAX_BALL_X: i64 = 615_000;

pub const MIN_BALL_X: i64 = -MAX_BALL_X;

/// Number of rounds in a match.
pub const MAX_ROUNDS: u16 = 3;

/// Largest magnitude of a ball velocity component.
pub const MAX_BALL_SPEED: i64 = 1_000_000;

/// Largest magnitude of a ball coordinate between ticks.
pub const COORD_LIMIT: i64 = 1_000_000_000_000_000;

/// A colour channel as the exact fraction `num / den`.
#[derive(Clone, Copy, Debug, PartialEq, Eq, Structural)]
pub struct Ratio {
    pub num: u64,
    pub den: u64,
}

#[derive(Clone, Copy, Debug, PartialEq, Eq, Structural)]
pub struct Rgb {
    pub r: Ratio,
    pub g: Ratio,
    pub b: Ratio,
}

/// The colour of the paddle of client `id`: each channel is the remainder
/// of `id` by a different modulus, over that modulus.
pub open spec fn client_color(id: u64) -> Rgb {
    Rgb {
        r: Ratio { num: id % 23, den: 23 },
        g: Ratio { num: id % 27, den: 27 },
        b: Ratio { num: id % 39, den: 39 },
    }
}

pub open spec fn spec_white() -> Rgb {
    Rgb { r: Ratio { num: 1, den: 1 }, g: Ratio { num: 1, den: 1 }, b: Ratio { num: 1, den: 1 } }
}

impl Rgb {
    /// The reproducible colour of the paddle of client `id`.
    pub fn of_client(id: u64) -> (r: Rgb)
        ensures
            r == client_color(id),
    {
        Rgb {
            r: Ratio { num: id % 23, den: 23 },
            g: Ratio { num: id % 27, den: 27 },
            b: Ratio { num: id % 39, den: 39 },
        }
    }

    pub fn white() -> (r: Rgb)
        ensures
            r == spec_white(),
    {
        Rgb { r: Ratio { num: 1, den: 1 }, g: Ratio { num: 1, den: 1 }, b: Ratio { num: 1, den: 1 } }
    }
}

/// Phase of a match. `Finished` is terminal.
#[derive(Clone, Copy, Debug, PartialEq, Eq, Structural)]
pub enum GameState {
    Lobby,
    Playing,
    Finished,
}

/// Match bookkeeping: who holds each slot, the scores and the round count.
/// Slot 1 plays on the left, slot 2 on the right.
#[derive(Clone, Copy, Debug, PartialEq, Eq, Structural)]
pub struct GameData {
    pub player_count: usize,
    pub actor1: u64,
    pub actor2: u64,
    pub score1: u16,
    pub score2: u16,
    pub round: u16,
}

pub open spec fn spec_game_data_start() -> GameData {
    GameData { player_count: 0, actor1: 0, actor2: 0, score1: 0, score2: 0, round: 0 }
}

impl Default for GameData {
    /// No players, no score, round zero.
    fn default() -> (r: GameData)
        ensures
            r == spec_game_data_start(),
    {
        GameData { player_count: 0, actor1: 0, actor2: 0, score1: 0, score2: 0, round: 0 }
    }
}

/// Identity of the local client, for presentation.
#[derive(Clone, Copy, Debug, PartialEq, Eq, Structural)]
pub struct LocalData {
    pub client_id: u64,
}

/// The match's systems, as associated functions.
#[derive(Clone, Copy, Debug, PartialEq, Eq, Structural)]
pub struct PingPongPlugin;

/// A paddle: its owning client, centre and colour.
#[derive(Clone, Copy, Debug, PartialEq, Eq, Structural)]
pub struct PlayerBundle {
    pub player: u64,
    pub position: Vec2,
    pub color: Rgb,
}

impl PlayerBundle {
    pub fn new(client_id: u64, position: Vec2, color: Rgb) -> (r: PlayerBundle)
        ensures
            r == (PlayerBundle { player: client_id, position, color }),
    {
        PlayerBundle { player: client_id, position, color }
    }
}

/// The ball: its centre, velocity and colour.
#[derive(Clone, Copy, Debug, PartialEq, Eq, Structural)]
pub struct BallBundle {
    pub position: Vec2,
    pub speed: Vec2,
    pub color: Rgb,
}

impl BallBundle {
    /// A ball at `position` moving at `SPEED` up and to the right.
    pub fn new(position: Vec2, color: Rgb) -> (r: BallBundle)
        ensures
            r == (BallBundle { position, speed: Vec2 { x: SPEED, y: SPEED }, color }),
    {
        BallBundle { position, speed: Vec2 { x: SPEED, y: SPEED }, color }
    }
}

/// Movement input of a client. Paddles move vertically only, at full speed,
/// in the direction of the sign of `y`; a zero `y` moves nothing.
#[derive(Clone, Copy, Debug, PartialEq, Eq, Structural)]
pub struct MoveDirection(pub Vec2);

/// A movement input together with the client that sent it.
#[derive(Clone, Copy, Debug, PartialEq, Eq, Structural)]
pub struct FromClient {
    pub client_id: u64,
    pub event: MoveDirection,
}

/// Notification from the server to every client.
#[derive(Clone, Copy, Debug, PartialEq, Eq, Structural)]
pub enum S2cMessage {
    /// Carries nothing; clients ignore it.
    Empty,
    /// Both slots are filled: the identities of slot 1 and slot 2.
    GameStart(u64, u64),
    /// A client took a slot (1 or 2).
    ClientJoin(u64, i32),
    /// The holder of a slot (1 or 2) scored.
    RoundResult(u64),
    GameEnd,
}

#[derive(Clone, Copy, Debug, PartialEq, Eq, Structural)]
pub struct ServerMessage {
    pub msg: S2cMessage,
}

/// Connection events of the transport layer.
#[derive(Clone, Copy, Debug, PartialEq, Eq, Structural)]
pub enum ConnectionEvent {
    ClientConnected { client_id: u64 },
    ClientDisconnected { client_id: u64 },
}

} // verus!
