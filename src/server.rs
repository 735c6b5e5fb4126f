//! The authoritative server: slot assignment on connection and the
//! per-tick simulation of paddles and ball.
use vstd::prelude::*;

use crate::components::{
    client_color, spec_game_data_start, spec_white, BallBundle, ConnectionEvent, FromClient,
    GameData, GameState, MoveDirection, PingPongPlugin, PlayerBundle, Rgb, S2cMessage,
    ServerMessage, BALL_WIDTH, COORD_LIMIT, MAX_BALL_SPEED, MAX_BALL_X, MAX_BALL_Y,
    MAX_PADDLE_Y, MAX_ROUNDS, MIN_BALL_X, MIN_BALL_Y, MIN_PADDLE_Y, PADDLE_HEIGHT, PADDLE_LEFT_X,
    PADDLE_WIDTH, SPEED,
};
use crate::geometry::{clamp, clamped, intersect, rects_overlap, Vec2};

verus! {

/// Everything the server owns: match phase and bookkeeping, the paddles in
/// slot order, and the ball.
pub struct ServerWorld {
    pub state: GameState,
    pub data: GameData,
    pub paddles: Vec<PlayerBundle>,
    pub ball: BallBundle,
}

pub open spec fn abs(v: int) -> int {
    if v < 0 {
        -v
    } else {
        v
    }
}

pub open spec fn paddle_y_in_bounds(p: PlayerBundle) -> bool {
    MIN_PADDLE_Y <= p.position.y <= MAX_PADDLE_Y
}

pub open spec fn ball_in_limits(b: BallBundle) -> bool {
    &&& abs(b.position.x as int) <= COORD_LIMIT
    &&& abs(b.position.y as int) <= COORD_LIMIT
    &&& abs(b.speed.x as int) <= MAX_BALL_SPEED
    &&& abs(b.speed.y as int) <= MAX_BALL_SPEED
}

/// The phase that the bookkeeping implies: the lobby until both slots are
/// taken, then play until the last round is over.
pub open spec fn phase_of(d: GameData) -> GameState {
    if d.player_count < 2 {
        GameState::Lobby
    } else if d.round < MAX_ROUNDS {
        GameState::Playing
    } else {
        GameState::Finished
    }
}

impl ServerWorld {
    /// The world's invariant: one paddle per taken slot, in slot order and on
    /// its side, within the vertical bounds; every round scored by exactly
    /// one side; the phase as the bookkeeping implies it.
    pub open spec fn wf(&self) -> bool {
        &&& self.data.player_count <= 2
        &&& self.paddles.len() == self.data.player_count
        &&& self.data.player_count >= 1 ==> self.paddles@[0].player == self.data.actor1
            && self.paddles@[0].position.x == -PADDLE_LEFT_X
        &&& self.data.player_count >= 2 ==> self.paddles@[1].player == self.data.actor2
            && self.paddles@[1].position.x == PADDLE_LEFT_X
        &&& forall|i: int| 0 <= i < self.paddles.len() ==> paddle_y_in_bounds(#[trigger] self.paddles@[i])
        &&& ball_in_limits(self.ball)
        &&& self.data.score1 + self.data.score2 == self.data.round
        &&& self.data.round <= MAX_ROUNDS
        &&& self.data.player_count < 2 ==> self.data.round == 0
        &&& self.state == phase_of(self.data)
    }

    /// A fresh server: the lobby, nobody connected, the ball at the centre.
    pub fn new() -> (r: ServerWorld)
        ensures
            r.wf(),
            r.state == GameState::Lobby,
            r.data == spec_game_data_start(),
            r.paddles@ == Seq::<PlayerBundle>::empty(),
            r.ball == (BallBundle {
                position: Vec2 { x: 0, y: 0 },
                speed: Vec2 { x: SPEED, y: SPEED },
                color: spec_white(),
            }),
    {
        ServerWorld {
            state: GameState::Lobby,
            data: GameData::default(),
            paddles: Vec::new(),
            ball: PingPongPlugin::init_system_server(),
        }
    }
}

impl PingPongPlugin {
    /// The ball that the server spawns at startup: white, at the centre.
    pub fn init_system_server() -> (r: BallBundle)
        ensures
            r == (BallBundle {
                position: Vec2 { x: 0, y: 0 },
                speed: Vec2 { x: SPEED, y: SPEED },
                color: spec_white(),
            }),
    {
        BallBundle::new(Vec2::zero(), Rgb::white())
    }
}

/// -1, 0 or 1 by the sign of `v`.
pub open spec fn sign(v: int) -> int {
    if v > 0 {
        1
    } else if v < 0 {
        -1
    } else {
        0
    }
}

/// A paddle after one movement input over `dt` milliseconds: it moves by
/// `SPEED * dt` in the input's vertical direction, then is held within the
/// vertical bounds.
pub open spec fn moved_paddle(p: PlayerBundle, dir: MoveDirection, dt: u32) -> PlayerBundle {
    PlayerBundle {
        player: p.player,
        position: Vec2 {
            x: p.position.x,
            y: clamped(
                p.position.y + sign(dir.0.y as int) * (SPEED * dt),
                MIN_PADDLE_Y as int,
                MAX_PADDLE_Y as int,
            ) as i64,
        },
        color: p.color,
    }
}

/// The paddles after one client's input: those it owns move.
pub open spec fn paddles_after_move(ps: Seq<PlayerBundle>, m: FromClient, dt: u32) -> Seq<
    PlayerBundle,
> {
    ps.map_values(
        |p: PlayerBundle|
            if p.player == m.client_id {
                moved_paddle(p, m.event, dt)
            } else {
                p
            },
    )
}

/// The paddles after a batch of inputs, applied in order.
pub open spec fn paddles_after_moves(ps: Seq<PlayerBundle>, moves: Seq<FromClient>, dt: u32) -> Seq<
    PlayerBundle,
>
    decreases moves.len(),
{
    if moves.len() == 0 {
        ps
    } else {
        paddles_after_move(paddles_after_moves(ps, moves.drop_last(), dt), moves.last(), dt)
    }
}

/// Moves `p` by one input; the result lies within the vertical bounds
/// whatever the paddle's position before.
pub fn move_paddle(p: &mut PlayerBundle, dir: MoveDirection, dt: u32)
    ensures
        *final(p) == moved_paddle(*old(p), dir, dt),
        paddle_y_in_bounds(*final(p)),
{
    let mag: i128 = SPEED as i128 * dt as i128;
    assert(mag == SPEED * dt);
    let step: i128 = if dir.0.y > 0 {
        mag
    } else if dir.0.y < 0 {
        -mag
    } else {
        0
    };
    assert(step == sign(dir.0.y as int) * (SPEED * dt));
    let y = p.position.y as i128 + step;
    let limited: i128 = if y < MIN_PADDLE_Y as i128 {
        MIN_PADDLE_Y as i128
    } else if y > MAX_PADDLE_Y as i128 {
        MAX_PADDLE_Y as i128
    } else {
        y
    };
    p.position.y = limited as i64;
}

/// The ball after `dt` milliseconds of free flight: it moves by its
/// velocity; touching or passing the top or bottom bound turns its vertical
/// velocity round, and its height is then held within those bounds.
pub open spec fn integrated(b: BallBundle, dt: u32) -> BallBundle {
    let x = b.position.x + b.speed.x * dt;
    let y = b.position.y + b.speed.y * dt;
    let vy = if y <= MIN_BALL_Y || y >= MAX_BALL_Y {
        -b.speed.y
    } else {
        b.speed.y as int
    };
    BallBundle {
        position: Vec2 { x: x as i64, y: clamped(y, MIN_BALL_Y as int, MAX_BALL_Y as int) as i64 },
        speed: Vec2 { x: b.speed.x, y: vy as i64 },
        color: b.color,
    }
}

/// The slot that scores with the ball at `b` in round `round`, or 0 when
/// nobody does: a ball at or past the left bound scores for slot 2, one at or
/// past the right bound for slot 1, while rounds remain.
pub open spec fn scoring_slot(b: BallBundle, round: u16) -> u64 {
    if round < MAX_ROUNDS && b.position.x <= MIN_BALL_X {
        2
    } else if round < MAX_ROUNDS && b.position.x >= MAX_BALL_X {
        1
    } else {
        0
    }
}

/// After a point the ball restarts at the centre with its horizontal
/// velocity turned round.
pub open spec fn ball_after_score(b: BallBundle, slot: u64) -> BallBundle {
    if slot == 0 {
        b
    } else {
        BallBundle {
            position: Vec2 { x: 0, y: 0 },
            speed: Vec2 { x: -b.speed.x as i64, y: b.speed.y },
            color: b.color,
        }
    }
}

/// A point for `slot` adds one to its score and ends the round.
pub open spec fn data_after_score(d: GameData, slot: u64) -> GameData {
    if slot == 1 {
        GameData { score1: (d.score1 + 1) as u16, round: (d.round + 1) as u16, ..d }
    } else if slot == 2 {
        GameData { score2: (d.score2 + 1) as u16, round: (d.round + 1) as u16, ..d }
    } else {
        d
    }
}

/// Whether a point scored in round `d.round` ends the match.
pub open spec fn ends_match(d: GameData, slot: u64) -> bool {
    slot != 0 && d.round + 1 >= MAX_ROUNDS
}

pub open spec fn state_after_score(s: GameState, d: GameData, slot: u64) -> GameState {
    if ends_match(d, slot) {
        GameState::Finished
    } else {
        s
    }
}

/// What a point broadcasts: the round's result, then the end of the match
/// if it was the last round.
pub open spec fn score_messages(d: GameData, slot: u64) -> Seq<ServerMessage> {
    if slot == 0 {
        seq![]
    } else if ends_match(d, slot) {
        seq![
            ServerMessage { msg: S2cMessage::RoundResult(slot) },
            ServerMessage { msg: S2cMessage::GameEnd },
        ]
    } else {
        seq![ServerMessage { msg: S2cMessage::RoundResult(slot) }]
    }
}

pub open spec fn ball_size() -> Vec2 {
    Vec2 { x: BALL_WIDTH, y: BALL_WIDTH }
}

pub open spec fn paddle_size() -> Vec2 {
    Vec2 { x: PADDLE_WIDTH, y: PADDLE_HEIGHT }
}

pub open spec fn hits_paddle(b: BallBundle, p: PlayerBundle) -> bool {
    rects_overlap(b.position, ball_size(), p.position, paddle_size())
}

/// The horizontal velocity that sends the ball away from a paddle: to the
/// right left of the centre line, to the left elsewhere.
pub open spec fn away_speed(b: BallBundle) -> int {
    if b.position.x < 0 {
        abs(b.speed.x as int)
    } else {
        -abs(b.speed.x as int)
    }
}

/// The ball after meeting the paddles: if it overlaps any, its horizontal
/// velocity points away from that side.
pub open spec fn ball_after_collisions(b: BallBundle, ps: Seq<PlayerBundle>) -> BallBundle {
    if exists|k: int| 0 <= k < ps.len() && #[trigger] hits_paddle(b, ps[k]) {
        BallBundle { speed: Vec2 { x: away_speed(b) as i64, y: b.speed.y }, ..b }
    } else {
        b
    }
}

proof fn lemma_step_bound(v: int, dt: int)
    requires
        -MAX_BALL_SPEED <= v <= MAX_BALL_SPEED,
        0 <= dt <= u32::MAX,
    ensures
        -MAX_BALL_SPEED * u32::MAX <= v * dt <= MAX_BALL_SPEED * u32::MAX,
{
    assert(-1_000_000 * dt <= v * dt <= 1_000_000 * dt) by (nonlinear_arith)
        requires
            -1_000_000 <= v <= 1_000_000,
            0 <= dt,
    ;
    assert(1_000_000 * dt <= 1_000_000 * 0xffff_ffff) by (nonlinear_arith)
        requires
            0 <= dt <= 0xffff_ffff,
    ;
}

/// Moves the ball by its velocity over `dt` milliseconds, bouncing it off the
/// top and bottom bounds.
fn integrate_ball(b: &mut BallBundle, dt: u32)
    requires
        ball_in_limits(*old(b)),
    ensures
        *final(b) == integrated(*old(b), dt),
{
    proof {
        lemma_step_bound(b.speed.x as int, dt as int);
        lemma_step_bound(b.speed.y as int, dt as int);
    }
    let x = b.position.x + b.speed.x * dt as i64;
    let y = b.position.y + b.speed.y * dt as i64;
    if y <= MIN_BALL_Y || y >= MAX_BALL_Y {
        b.speed.y = -b.speed.y;
    }
    b.position.x = x;
    b.position.y = clamp(y, MIN_BALL_Y, MAX_BALL_Y);
}

/// Turns the ball away from every paddle that it overlaps.
fn collide_with_paddles(ball: &mut BallBundle, paddles: &Vec<PlayerBundle>)
    requires
        abs(old(ball).speed.x as int) <= MAX_BALL_SPEED,
    ensures
        *final(ball) == ball_after_collisions(*old(ball), paddles@),
{
    let ghost before = *ball;
    let ball_extent = Vec2::new(BALL_WIDTH, BALL_WIDTH);
    let paddle_extent = Vec2::new(PADDLE_WIDTH, PADDLE_HEIGHT);
    let mut j: usize = 0;
    while j < paddles.len()
        invariant
            j <= paddles.len(),
            ball_extent == ball_size(),
            paddle_extent == paddle_size(),
            abs(before.speed.x as int) <= MAX_BALL_SPEED,
            ball.position == before.position,
            ball.color == before.color,
            ball.speed.y == before.speed.y,
            ball.speed.x == if exists|k: int| 0 <= k < j && #[trigger] hits_paddle(before, paddles@[k]) {
                away_speed(before)
            } else {
                before.speed.x as int
            },
        decreases paddles.len() - j,
    {
        let p = paddles[j];
        if intersect(ball.position, ball_extent, p.position, paddle_extent) {
            ball.speed.x = -ball.speed.x;
            if ball.position.x < 0 {
                ball.speed.x = if ball.speed.x < 0 { -ball.speed.x } else { ball.speed.x };
            } else {
                ball.speed.x = if ball.speed.x < 0 { ball.speed.x } else { -ball.speed.x };
            }
            assert(hits_paddle(before, paddles@[j as int]));
        } else {
            assert(!hits_paddle(before, paddles@[j as int]));
        }
        j += 1;
    }
}

/// Paddles that keep their owners and sides, within the vertical bounds.
pub open spec fn paddles_keep_places(now: Seq<PlayerBundle>, was: Seq<PlayerBundle>) -> bool {
    &&& now.len() == was.len()
    &&& forall|k: int|
        0 <= k < now.len() ==> {
            &&& (#[trigger] now[k]).player == was[k].player
            &&& now[k].position.x == was[k].position.x
            &&& paddle_y_in_bounds(now[k])
        }
}

/// Applies one client's input to the paddles that it owns.
fn apply_move(paddles: &mut Vec<PlayerBundle>, m: FromClient, dt: u32)
    ensures
        final(paddles)@ == paddles_after_move(old(paddles)@, m, dt),
        forall|k: int|
            0 <= k < old(paddles)@.len() && paddle_y_in_bounds(#[trigger] old(paddles)@[k])
                ==> paddle_y_in_bounds(final(paddles)@[k]),
{
    let ghost before = paddles@;
    let mut j: usize = 0;
    while j < paddles.len()
        invariant
            paddles@.len() == before.len(),
            j <= paddles@.len(),
            forall|k: int|
                0 <= k < j ==> #[trigger] paddles@[k] == (if before[k].player == m.client_id {
                    moved_paddle(before[k], m.event, dt)
                } else {
                    before[k]
                }),
            forall|k: int| j <= k < paddles@.len() ==> #[trigger] paddles@[k] == before[k],
        decreases before.len() - j,
    {
        let mut p = paddles[j];
        if p.player == m.client_id {
            move_paddle(&mut p, m.event, dt);
        }
        paddles.set(j, p);
        j += 1;
    }
    assert(paddles@ =~= paddles_after_move(before, m, dt));
}

impl PingPongPlugin {
    /// One simulation tick of `dt` milliseconds, run only while the match is
    /// being played. Inputs are applied in order, then the ball flies and
    /// bounces, a ball at or past a side bound scores for the other side and
    /// restarts at the centre, and finally the ball is turned away from any
    /// paddle that it overlaps. Returns the notifications to broadcast.
    pub fn movement_system(world: &mut ServerWorld, dt: u32, moves: &Vec<FromClient>) -> (msgs:
        Vec<ServerMessage>)
        requires
            old(world).wf(),
        ensures
            final(world).wf(),
            old(world).state != GameState::Playing ==> final(world).state == old(world).state
                && final(world).data == old(world).data && final(world).paddles@ == old(
                world,
            ).paddles@ && final(world).ball == old(world).ball && msgs@.len() == 0,
            old(world).state == GameState::Playing ==> final(world).paddles@ == paddles_after_moves(
                old(world).paddles@,
                moves@,
                dt,
            ),
            old(world).state == GameState::Playing ==> final(world).ball == ball_after_collisions(
                ball_after_score(
                    integrated(old(world).ball, dt),
                    scoring_slot(integrated(old(world).ball, dt), old(world).data.round),
                ),
                final(world).paddles@,
            ),
            old(world).state == GameState::Playing ==> final(world).data == data_after_score(
                old(world).data,
                scoring_slot(integrated(old(world).ball, dt), old(world).data.round),
            ),
            old(world).state == GameState::Playing ==> final(world).state == state_after_score(
                old(world).state,
                old(world).data,
                scoring_slot(integrated(old(world).ball, dt), old(world).data.round),
            ),
            old(world).state == GameState::Playing ==> msgs@ == score_messages(
                old(world).data,
                scoring_slot(integrated(old(world).ball, dt), old(world).data.round),
            ),
            old(world).state == GameState::Playing ==> MIN_BALL_X <= final(world).ball.position.x
                <= MAX_BALL_X && MIN_BALL_Y <= final(world).ball.position.y <= MAX_BALL_Y,
    {
        let mut msgs: Vec<ServerMessage> = Vec::new();
        if world.state != GameState::Playing {
            return msgs;
        }
        let ghost start = *world;
        let ghost orig = world.paddles@;
        let mut i: usize = 0;
        while i < moves.len()
            invariant
                i <= moves@.len(),
                world.state == start.state,
                world.data == start.data,
                world.ball == start.ball,
                paddles_keep_places(world.paddles@, orig),
                world.paddles@ == paddles_after_moves(orig, moves@.subrange(0, i as int), dt),
            decreases moves@.len() - i,
        {
            let m = moves[i];
            let ghost before = world.paddles@;
            apply_move(&mut world.paddles, m, dt);
            assert(moves@.subrange(0, i + 1).drop_last() =~= moves@.subrange(0, i as int));
            assert(forall|k: int| 0 <= k < before.len() ==> #[trigger] world.paddles@[k] == (if before[k].player == m.client_id {
                moved_paddle(before[k], m.event, dt)
            } else {
                before[k]
            }));
            i += 1;
        }
        assert(moves@.subrange(0, moves@.len() as int) =~= moves@);

        integrate_ball(&mut world.ball, dt);
        let slot: u64 = if world.data.round < MAX_ROUNDS && world.ball.position.x <= MIN_BALL_X {
            2
        } else if world.data.round < MAX_ROUNDS && world.ball.position.x >= MAX_BALL_X {
            1
        } else {
            0
        };
        if slot != 0 {
            world.ball.position = Vec2::zero();
            world.ball.speed.x = -world.ball.speed.x;
            world.data.round = world.data.round + 1;
            if slot == 1 {
                world.data.score1 = world.data.score1 + 1;
            } else {
                world.data.score2 = world.data.score2 + 1;
            }
            msgs.push(ServerMessage { msg: S2cMessage::RoundResult(slot) });
            if world.data.round >= MAX_ROUNDS {
                world.state = GameState::Finished;
                msgs.push(ServerMessage { msg: S2cMessage::GameEnd });
            }
        }
        collide_with_paddles(&mut world.ball, &world.paddles);
        proof {
            assert(msgs@ =~= score_messages(start.data, slot));
        }
        msgs
    }
}

/// What connection events act on: the phase, the bookkeeping and the paddles.
pub type Roster = (GameState, GameData, Seq<PlayerBundle>);

/// The roster after one connection event. The first client to connect takes
/// slot 1 with a paddle on the left, the second takes slot 2 with a paddle on
/// the right and starts the match; later connections and every disconnection
/// change nothing.
pub open spec fn roster_step(v: Roster, e: ConnectionEvent) -> Roster {
    match e {
        ConnectionEvent::ClientConnected { client_id } => {
            if v.1.player_count == 0 {
                (
                    v.0,
                    GameData { player_count: 1, actor1: client_id, ..v.1 },
                    v.2.push(
                        PlayerBundle {
                            player: client_id,
                            position: Vec2 { x: (-PADDLE_LEFT_X) as i64, y: 0 },
                            color: client_color(client_id),
                        },
                    ),
                )
            } else if v.1.player_count == 1 {
                (
                    GameState::Playing,
                    GameData { player_count: 2, actor2: client_id, ..v.1 },
                    v.2.push(
                        PlayerBundle {
                            player: client_id,
                            position: Vec2 { x: PADDLE_LEFT_X, y: 0 },
                            color: client_color(client_id),
                        },
                    ),
                )
            } else {
                v
            }
        },
        ConnectionEvent::ClientDisconnected { .. } => v,
    }
}

/// What one connection event broadcasts: the join with its slot, and the
/// start of the match once the second slot is taken.
pub open spec fn roster_step_messages(d: GameData, e: ConnectionEvent) -> Seq<ServerMessage> {
    match e {
        ConnectionEvent::ClientConnected { client_id } => {
            if d.player_count == 0 {
                seq![ServerMessage { msg: S2cMessage::ClientJoin(client_id, 1) }]
            } else if d.player_count == 1 {
                seq![
                    ServerMessage { msg: S2cMessage::ClientJoin(client_id, 2) },
                    ServerMessage { msg: S2cMessage::GameStart(d.actor1, client_id) },
                ]
            } else {
                seq![]
            }
        },
        ConnectionEvent::ClientDisconnected { .. } => seq![],
    }
}

/// The roster after a batch of events, taken in order.
pub open spec fn roster_after(v: Roster, events: Seq<ConnectionEvent>) -> Roster
    decreases events.len(),
{
    if events.len() == 0 {
        v
    } else {
        roster_step(roster_after(v, events.drop_last()), events.last())
    }
}

/// Everything a batch of events broadcasts, in order.
pub open spec fn roster_messages(v: Roster, events: Seq<ConnectionEvent>) -> Seq<ServerMessage>
    decreases events.len(),
{
    if events.len() == 0 {
        seq![]
    } else {
        roster_messages(v, events.drop_last()) + roster_step_messages(
            roster_after(v, events.drop_last()).1,
            events.last(),
        )
    }
}

impl ServerWorld {
    pub open spec fn roster(&self) -> Roster {
        (self.state, self.data, self.paddles@)
    }

    /// Takes one connection event, appending what it broadcasts to `msgs`.
    fn on_connection_event(&mut self, e: ConnectionEvent, msgs: &mut Vec<ServerMessage>)
        requires
            old(self).wf(),
        ensures
            final(self).wf(),
            final(self).roster() == roster_step(old(self).roster(), e),
            final(self).ball == old(self).ball,
            final(msgs)@ == old(msgs)@ + roster_step_messages(old(self).data, e),
    {
        let ghost start = self.roster();
        match e {
            ConnectionEvent::ClientConnected { client_id } => {
                let color = Rgb::of_client(client_id);
                if self.data.player_count == 0 {
                    self.paddles.push(
                        PlayerBundle::new(client_id, Vec2::new(-PADDLE_LEFT_X, 0), color),
                    );
                    msgs.push(ServerMessage { msg: S2cMessage::ClientJoin(client_id, 1) });
                    self.data.actor1 = client_id;
                    self.data.player_count = 1;
                } else if self.data.player_count == 1 {
                    self.paddles.push(PlayerBundle::new(client_id, Vec2::new(PADDLE_LEFT_X, 0), color));
                    msgs.push(ServerMessage { msg: S2cMessage::ClientJoin(client_id, 2) });
                    self.data.actor2 = client_id;
                    self.data.player_count = 2;
                    self.state = GameState::Playing;
                    msgs.push(
                        ServerMessage { msg: S2cMessage::GameStart(self.data.actor1, self.data.actor2) },
                    );
                }
            },
            ConnectionEvent::ClientDisconnected { .. } => {},
        }
        proof {
            assert(self.roster().2 =~= roster_step(start, e).2);
        }
    }
}

impl PingPongPlugin {
    /// Takes the transport's connection events in order: assigns slots,
    /// spawns paddles and starts the match once two clients are in. Returns
    /// the notifications to broadcast.
    pub fn server_event_system(world: &mut ServerWorld, events: &Vec<ConnectionEvent>) -> (msgs:
        Vec<ServerMessage>)
        requires
            old(world).wf(),
        ensures
            final(world).wf(),
            final(world).roster() == roster_after(old(world).roster(), events@),
            final(world).ball == old(world).ball,
            msgs@ == roster_messages(old(world).roster(), events@),
    {
        let mut msgs: Vec<ServerMessage> = Vec::new();
        let ghost start = world.roster();
        let ghost ball = world.ball;
        let mut i: usize = 0;
        while i < events.len()
            invariant
                i <= events@.len(),
                world.wf(),
                world.ball == ball,
                world.roster() == roster_after(start, events@.subrange(0, i as int)),
                msgs@ == roster_messages(start, events@.subrange(0, i as int)),
            decreases events@.len() - i,
        {
            let e = events[i];
            world.on_connection_event(e, &mut msgs);
            assert(events@.subrange(0, i + 1).drop_last() =~= events@.subrange(0, i as int));
            i += 1;
        }
        assert(events@.subrange(0, events@.len() as int) =~= events@);
        msgs
    }
}

/// An input without magnitude leaves every paddle where it is, provided the
/// paddles are within their vertical bounds.
pub proof fn lemma_zero_direction_keeps_paddles(ps: Seq<PlayerBundle>, m: FromClient, dt: u32)
    requires
        m.event.0.x == 0,
        m.event.0.y == 0,
        forall|k: int| 0 <= k < ps.len() ==> paddle_y_in_bounds(#[trigger] ps[k]),
    ensures
        paddles_after_move(ps, m, dt) == ps,
{
    assert(paddles_after_move(ps, m, dt) =~= ps);
}

} // verus!
