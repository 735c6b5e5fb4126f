//! The client side: a mirror of the match driven only by the server's
//! notifications, movement input, and the score board that is shown.
use vstd::prelude::*;

use crate::components::{
    GameData, GameState, LocalData, MoveDirection, PingPongPlugin, S2cMessage, ServerMessage,
    MAX_ROUNDS,
};
use crate::geometry::Vec2;

verus! {

/// What a client mirrors: the phase and the bookkeeping.
pub type Mirror = (GameState, GameData);

/// The mirror after one notification.
pub open spec fn mirror_step(v: Mirror, m: ServerMessage) -> Mirror {
    match m.msg {
        S2cMessage::Empty => v,
        S2cMessage::GameStart(a1, a2) => (
            GameState::Playing,
            GameData { actor1: a1, actor2: a2, ..v.1 },
        ),
        S2cMessage::ClientJoin(id, slot) => {
            if slot == 1 {
                (v.0, GameData { actor1: id, ..v.1 })
            } else {
                (v.0, GameData { actor2: id, ..v.1 })
            }
        },
        S2cMessage::RoundResult(slot) => {
            if slot == 1 {
                (v.0, GameData { score1: (v.1.score1 + 1) as u16, round: (v.1.round + 1) as u16, ..v.1 })
            } else {
                (v.0, GameData { score2: (v.1.score2 + 1) as u16, round: (v.1.round + 1) as u16, ..v.1 })
            }
        },
        S2cMessage::GameEnd => (GameState::Finished, v.1),
    }
}

/// The mirror after a stream of notifications, taken in order of receipt.
pub open spec fn mirror_after(v: Mirror, msgs: Seq<ServerMessage>) -> Mirror
    decreases msgs.len(),
{
    if msgs.len() == 0 {
        v
    } else {
        mirror_step(mirror_after(v, msgs.drop_last()), msgs.last())
    }
}

/// How many of `msgs` are round results.
pub open spec fn round_results(msgs: Seq<ServerMessage>) -> nat
    decreases msgs.len(),
{
    if msgs.len() == 0 {
        0
    } else {
        round_results(msgs.drop_last()) + if msgs.last().msg is RoundResult {
            1nat
        } else {
            0nat
        }
    }
}

/// A notification can be mirrored when the counters it raises have room.
pub open spec fn counters_have_room(d: GameData, m: ServerMessage) -> bool {
    m.msg is RoundResult ==> d.score1 < u16::MAX && d.score2 < u16::MAX && d.round < u16::MAX
}

/// Applies one notification to the mirror.
pub fn apply_server_message(state: &mut GameState, data: &mut GameData, m: ServerMessage)
    requires
        counters_have_room(*old(data), m),
    ensures
        (*final(state), *final(data)) == mirror_step((*old(state), *old(data)), m),
{
    match m.msg {
        S2cMessage::Empty => {},
        S2cMessage::GameStart(actor1_id, actor2_id) => {
            *state = GameState::Playing;
            data.actor1 = actor1_id;
            data.actor2 = actor2_id;
        },
        S2cMessage::ClientJoin(client_id, client_actor_id) => {
            if client_actor_id == 1 {
                data.actor1 = client_id;
            } else {
                data.actor2 = client_id;
            }
        },
        S2cMessage::RoundResult(client_actor_id) => {
            if client_actor_id == 1 {
                data.score1 = data.score1 + 1;
            } else {
                data.score2 = data.score2 + 1;
            }
            data.round = data.round + 1;
        },
        S2cMessage::GameEnd => {
            *state = GameState::Finished;
        },
    }
}

proof fn lemma_round_results_grow(msgs: Seq<ServerMessage>, i: int)
    requires
        0 <= i < msgs.len(),
    ensures
        round_results(msgs.subrange(0, i)) + (if msgs[i].msg is RoundResult {
            1nat
        } else {
            0nat
        }) == round_results(msgs.subrange(0, i + 1)),
        round_results(msgs.subrange(0, i + 1)) <= round_results(msgs),
    decreases msgs.len(),
{
    assert(msgs.subrange(0, i + 1).drop_last() =~= msgs.subrange(0, i));
    if i + 1 < msgs.len() {
        lemma_round_results_grow(msgs.drop_last(), i);
        assert(msgs.drop_last().subrange(0, i + 1) =~= msgs.subrange(0, i + 1));
        assert(msgs.drop_last().subrange(0, i) =~= msgs.subrange(0, i));
    } else {
        assert(msgs.subrange(0, i + 1) =~= msgs);
    }
}

/// A mirror's counters, raised by `n` round results.
pub open spec fn counters_fit(d: GameData, n: nat) -> bool {
    &&& d.score1 + n <= u16::MAX
    &&& d.score2 + n <= u16::MAX
    &&& d.round + n <= u16::MAX
}

impl PingPongPlugin {
    /// Applies the server's notifications to the client's mirror in order of
    /// receipt.
    pub fn client_event_system(
        state: &mut GameState,
        data: &mut GameData,
        events: &Vec<ServerMessage>,
    )
        requires
            counters_fit(*old(data), round_results(events@)),
        ensures
            (*final(state), *final(data)) == mirror_after((*old(state), *old(data)), events@),
    {
        let ghost start = (*state, *data);
        let mut i: usize = 0;
        while i < events.len()
            invariant
                i <= events@.len(),
                counters_fit(start.1, round_results(events@)),
                (*state, *data) == mirror_after(start, events@.subrange(0, i as int)),
                data.score1 <= start.1.score1 + round_results(events@.subrange(0, i as int)),
                data.score2 <= start.1.score2 + round_results(events@.subrange(0, i as int)),
                data.round == start.1.round + round_results(events@.subrange(0, i as int)),
            decreases events@.len() - i,
        {
            let m = events[i];
            proof {
                lemma_round_results_grow(events@, i as int);
            }
            apply_server_message(state, data, m);
            assert(events@.subrange(0, i + 1).drop_last() =~= events@.subrange(0, i as int));
            i += 1;
        }
        assert(events@.subrange(0, events@.len() as int) =~= events@);
    }
}

/// Applying a round result to a mirror raises exactly one of the two scores
/// by one, and the round count by one.
pub proof fn lemma_round_result_counts(v: Mirror, slot: u64)
    requires
        counters_have_room(v.1, ServerMessage { msg: S2cMessage::RoundResult(slot) }),
    ensures
        ({
            let after = mirror_step(v, ServerMessage { msg: S2cMessage::RoundResult(slot) }).1;
            &&& after.round == v.1.round + 1
            &&& (after.score1 == v.1.score1 + 1 && after.score2 == v.1.score2) || (after.score2
                == v.1.score2 + 1 && after.score1 == v.1.score1)
        }),
{
}

/// The scores as one client sees them.
#[derive(Clone, Copy, Debug, PartialEq, Eq, Structural)]
pub struct ScoreBoard {
    pub round: u16,
    pub max_rounds: u16,
    pub client_id: u64,
    pub my_score: u16,
    pub opponent_id: u64,
    pub opponent_score: u16,
}

/// The client holding slot 1 sees slot 1's score as its own; any other
/// client sees slot 2's.
pub open spec fn score_board(d: GameData, local: LocalData) -> ScoreBoard {
    if local.client_id == d.actor1 {
        ScoreBoard {
            round: d.round,
            max_rounds: MAX_ROUNDS,
            client_id: local.client_id,
            my_score: d.score1,
            opponent_id: d.actor2,
            opponent_score: d.score2,
        }
    } else {
        ScoreBoard {
            round: d.round,
            max_rounds: MAX_ROUNDS,
            client_id: local.client_id,
            my_score: d.score2,
            opponent_id: d.actor1,
            opponent_score: d.score1,
        }
    }
}

/// The direction that the held keys ask for: up, down, or nothing when
/// neither or both are held.
pub open spec fn spec_direction(up: bool, down: bool) -> Option<MoveDirection> {
    if up && !down {
        Some(MoveDirection(Vec2 { x: 0, y: 1 }))
    } else if down && !up {
        Some(MoveDirection(Vec2 { x: 0, y: -1i64 }))
    } else {
        None
    }
}

impl PingPongPlugin {
    /// The movement input to send for the held keys; nothing is sent when
    /// they cancel out.
    pub fn input_system(up: bool, down: bool) -> (r: Option<MoveDirection>)
        ensures
            r == spec_direction(up, down),
    {
        let mut y: i64 = 0;
        if up {
            y = y + 1;
        }
        if down {
            y = y - 1;
        }
        if y != 0 {
            Some(MoveDirection(Vec2::new(0, y)))
        } else {
            None
        }
    }

    /// The score board of the local client.
    pub fn render_gui_client(game_data: &GameData, local_data: &LocalData) -> (r: ScoreBoard)
        ensures
            r == score_board(*game_data, *local_data),
    {
        let client_id = local_data.client_id;
        let mine = client_id == game_data.actor1;
        let my_score = if mine {
            game_data.score1
        } else {
            game_data.score2
        };
        let opponent_id = if mine {
            game_data.actor2
        } else {
            game_data.actor1
        };
        let opponent_score = if mine {
            game_data.score2
        } else {
            game_data.score1
        };
        ScoreBoard {
            round: game_data.round,
            max_rounds: MAX_ROUNDS,
            client_id,
            my_score,
            opponent_id,
            opponent_score,
        }
    }
}

} // verus!
