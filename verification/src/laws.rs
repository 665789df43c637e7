//! Session-wide laws, each proved once and for all over the state
//! model: the transition functions of [`crate::state`] and the board
//! projection behave the same for every session that satisfies them.

use crate::player::PlayerView;
use crate::state::{
    spec_add_player, spec_board, spec_disconnect, BoardView, GameView,
};
use vstd::prelude::*;

verus! {

/// Weather lookup stability: the snapshot is a function of the session
/// state alone, so any two snapshots the same state admits are equal;
/// the weather shown is the schedule entry of the current turn, and the
/// storm flag is set exactly when the current turn is the storm turn.
pub proof fn lemma_snapshot_stable(v: GameView, b1: BoardView, b2: BoardView)
    requires
        v.wf(),
        b1 == spec_board(v),
        b2 == spec_board(v),
    ensures
        b1 == b2,
        b1.weather == v.weathers[v.turn_count as int],
        b1.storm <==> v.turn_count == v.storm_turn,
{
}

/// Roster gating: once the session has started, a join request under
/// any id leaves the state — in particular the roster and its size —
/// unchanged.
pub proof fn lemma_roster_gating(v: GameView, name: Seq<char>, id: u8)
    requires
        v.started,
    ensures
        spec_add_player(v, name, id) == v,
        spec_add_player(v, name, id).players.len() == v.players.len(),
{
}

/// Duplicate join no-op: a second join under an id that is already on
/// the roster changes nothing, so the name stored under the id stays
/// the one the first successful join brought.
pub proof fn lemma_duplicate_join(v: GameView, name1: Seq<char>, name2: Seq<char>, id: u8)
    ensures
        spec_add_player(spec_add_player(v, name1, id), name2, id) == spec_add_player(
            v,
            name1,
            id,
        ),
        !v.started && !v.players.contains_key(id) ==> spec_add_player(
            v,
            name1,
            id,
        ).players[id].name == name1,
{
    let v1 = spec_add_player(v, name1, id);
    if !v.started && !v.players.contains_key(id) {
        assert(v1.players.contains_key(id));
    }
}

/// Disconnect idempotence: clearing a player's connection twice leaves
/// the same state as clearing it once, and after either the flag under
/// a known id reads false.
pub proof fn lemma_disconnect_idempotent(v: GameView, id: u8)
    ensures
        spec_disconnect(spec_disconnect(v, id), id) == spec_disconnect(v, id),
        v.players.contains_key(id) ==> !spec_disconnect(v, id).players[id].connected,
{
    let v1 = spec_disconnect(v, id);
    if v.players.contains_key(id) {
        assert(v1.players.contains_key(id));
        assert(v1.players.insert(
            id,
            PlayerView { name: v1.players[id].name, connected: false },
        ) =~= v1.players);
        assert(spec_disconnect(v1, id) =~= v1);
    }
}

/// Snapshot redaction: two sessions that agree on everything a client
/// may see — today's weather code, whether today is the storm turn,
/// the roster, the counters and the scalar fields — project to the
/// same snapshot, however much their schedules and storm turns differ
/// elsewhere. The snapshot therefore carries nothing of the schedule
/// beyond the two current-turn-derived values.
pub proof fn lemma_snapshot_redacts_schedule(v1: GameView, v2: GameView)
    requires
        v1.wf(),
        v2.wf(),
        v1.turn_count == v2.turn_count,
        v1.weathers[v1.turn_count as int] == v2.weathers[v2.turn_count as int],
        (v1.storm_turn == v1.turn_count) <==> (v2.storm_turn == v2.turn_count),
        v1.players == v2.players,
        v1.current_water == v2.current_water,
        v1.current_wood == v2.current_wood,
        v1.current_food == v2.current_food,
        v1.current_player == v2.current_player,
        v1.started == v2.started,
    ensures
        spec_board(v1) == spec_board(v2),
{
    assert(spec_board(v1) =~= spec_board(v2));
}

} // verus!
