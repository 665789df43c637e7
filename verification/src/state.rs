//! The per-session game state machine and its redacted board snapshot.
//!
//! A session owns an immutable weather schedule, a roster of players,
//! three shared resource counters and a turn index. Player actions
//! mutate the state through [`GameState::perform_action`]; the only
//! projection ever handed across the system boundary is
//! [`GameState::to_board_state`], which derives the current turn's
//! weather and storm flag but never exposes the schedule or the storm
//! turn themselves.

use crate::player::{Player, PlayerView};
use crate::schedule;
use crate::schedule::SCHEDULE_LEN;
use std::collections::HashMap;
use vstd::prelude::*;

verus! {

/// A client-submitted request, decoded by the transport layer and
/// applied to the session state by [`GameState::perform_action`].
pub enum PlayerAction {
    LogIn { player_name: String },
    CollectFood,
    CollectWater,
    CollectWood { draws: u8 },
}

/// The authoritative state of one game session. All fields are private:
/// clients only ever see the redacted [`BoardState`] snapshot.
#[derive(Debug, Clone)]
pub struct GameState {
    weathers: Vec<u8>,
    players: HashMap<u8, Player>,
    current_water: u8,
    current_wood: u8,
    current_food: u8,
    current_player: u8,
    turn_count: u8,
    started: bool,
    storm: u8,
}

/// The mathematical image of a [`GameState`]: the schedule as a
/// sequence, the roster as a map from player id to [`PlayerView`], and
/// the scalar fields as they stand.
#[verifier::ext_equal]
pub struct GameView {
    pub weathers: Seq<u8>,
    pub players: Map<u8, PlayerView>,
    pub current_water: u8,
    pub current_wood: u8,
    pub current_food: u8,
    pub current_player: u8,
    pub turn_count: u8,
    pub started: bool,
    pub storm_turn: u8,
}

impl View for GameState {
    type V = GameView;

    closed spec fn view(&self) -> GameView {
        GameView {
            weathers: self.weathers@,
            players: self.players@.map_values(|p: Player| p@),
            current_water: self.current_water,
            current_wood: self.current_wood,
            current_food: self.current_food,
            current_player: self.current_player,
            turn_count: self.turn_count,
            started: self.started,
            storm_turn: self.storm,
        }
    }
}

impl GameView {
    /// The session invariants: one schedule entry per turn with the
    /// turn index in range, every code a small closed value, the storm
    /// turn inside the mid-game window, and the current player always
    /// referencing a roster entry once anyone has joined.
    pub open spec fn wf(self) -> bool {
        &&& self.weathers.len() == SCHEDULE_LEN
        &&& (self.turn_count as int) < self.weathers.len()
        &&& forall|i: int| 0 <= i < self.weathers.len() ==> self.weathers[i] <= 3
        &&& 6 <= self.storm_turn <= 11
        &&& (!self.players.is_empty() ==> self.players.contains_key(self.current_player))
    }
}

/// The view of a fresh session over the given schedule: empty roster,
/// zero counters, turn zero, not started.
pub open spec fn initial_view(weathers: Seq<u8>, storm_turn: u8) -> GameView {
    GameView {
        weathers,
        players: Map::<u8, PlayerView>::empty(),
        current_water: 0,
        current_wood: 0,
        current_food: 0,
        current_player: 0,
        turn_count: 0,
        started: false,
        storm_turn,
    }
}

/// The redacted projection sent to clients. Of the schedule it holds
/// only the current turn's weather code and whether today is the storm
/// turn; the full schedule and the storm index are never exposed.
pub struct BoardState {
    pub weather: u8,
    pub storm: bool,
    pub players: HashMap<u8, Player>,
    pub current_water: u8,
    pub current_wood: u8,
    pub current_food: u8,
    pub current_player: u8,
    pub turn_count: u8,
    pub started: bool,
}

/// The mathematical image of a [`BoardState`].
#[verifier::ext_equal]
pub struct BoardView {
    pub weather: u8,
    pub storm: bool,
    pub players: Map<u8, PlayerView>,
    pub current_water: u8,
    pub current_wood: u8,
    pub current_food: u8,
    pub current_player: u8,
    pub turn_count: u8,
    pub started: bool,
}

impl View for BoardState {
    type V = BoardView;

    closed spec fn view(&self) -> BoardView {
        BoardView {
            weather: self.weather,
            storm: self.storm,
            players: self.players@.map_values(|p: Player| p@),
            current_water: self.current_water,
            current_wood: self.current_wood,
            current_food: self.current_food,
            current_player: self.current_player,
            turn_count: self.turn_count,
            started: self.started,
        }
    }
}

/// The snapshot a session state projects to: today's weather code,
/// whether today is the storm turn, and the shared fields as they stand.
pub open spec fn spec_board(v: GameView) -> BoardView {
    BoardView {
        weather: v.weathers[v.turn_count as int],
        storm: v.storm_turn == v.turn_count,
        players: v.players,
        current_water: v.current_water,
        current_wood: v.current_wood,
        current_food: v.current_food,
        current_player: v.current_player,
        turn_count: v.turn_count,
        started: v.started,
    }
}

/// The roster transition for a join request: a no-op once the session
/// has started or when the id is already taken; otherwise the player is
/// registered connected under the id, and the first player to join
/// becomes the current player.
pub open spec fn spec_add_player(v: GameView, name: Seq<char>, id: u8) -> GameView {
    if v.started || v.players.contains_key(id) {
        v
    } else {
        GameView {
            players: v.players.insert(id, PlayerView { name, connected: true }),
            current_player: if v.players.is_empty() {
                id
            } else {
                v.current_player
            },
            ..v
        }
    }
}

/// The roster transition for a dropped connection: the player's
/// connectivity flag is cleared if the id is present, and nothing else
/// changes; an unknown id is a no-op. The record itself persists so the
/// player can rejoin.
pub open spec fn spec_disconnect(v: GameView, id: u8) -> GameView {
    if v.players.contains_key(id) {
        GameView {
            players: v.players.insert(
                id,
                PlayerView { name: v.players[id].name, connected: false },
            ),
            ..v
        }
    } else {
        v
    }
}

/// The water-collection transition: the shared water counter grows by
/// today's weather code, the turn's water yield.
pub open spec fn spec_collect_water(v: GameView) -> GameView {
    GameView {
        current_water: (v.current_water + v.weathers[v.turn_count as int]) as u8,
        ..v
    }
}

/// The food yield of one uniform roll below six: rolls under three
/// yield one unit, rolls three and four two, roll five three — so the
/// draw is 1, 2 or 3 units with probability 1/2, 1/3 and 1/6.
pub open spec fn spec_food_units(roll: u8) -> u8 {
    if roll < 3 {
        1
    } else if roll < 5 {
        2
    } else {
        3
    }
}

/// Whether the roster member under `id` exists and is connected.
pub open spec fn is_connected(v: GameView, id: u8) -> bool {
    v.players.contains_key(id) && v.players[id].connected
}

/// The cyclic distance from seat `cur` forward to seat `id` in id
/// order: the number of forward steps, wrapping past 255, that reach
/// `id` from `cur`; a full lap when `id == cur`.
pub open spec fn seat_distance(cur: u8, id: u8) -> int {
    if id > cur {
        id - cur
    } else {
        id - cur + 256
    }
}

/// Whether the state can absorb an action without a resource counter
/// overflowing: food needs room for the largest draw, water for today's
/// weather yield. Joins and wood draws are always absorbable.
pub open spec fn spec_action_allowed(v: GameView, action: PlayerAction) -> bool {
    match action {
        PlayerAction::LogIn { .. } => true,
        PlayerAction::CollectFood => v.current_food + 3 <= u8::MAX,
        PlayerAction::CollectWater => v.current_water + v.weathers[v.turn_count as int]
            <= u8::MAX,
        PlayerAction::CollectWood { .. } => true,
    }
}

impl Default for GameState {
    /// A fresh session: a randomly generated schedule and storm turn,
    /// an empty roster, all counters at zero, turn zero, not started.
    fn default() -> (g: Self)
        ensures
            g@.wf(),
            g@ == initial_view(g@.weathers, g@.storm_turn),
            g@.weathers.to_multiset() == schedule::full_weather_multiset(),
            g@.weathers[g@.storm_turn as int] == 2,
    {
        let (weathers, storm) = schedule::generate();
        let g = GameState {
            weathers,
            players: HashMap::new(),
            current_water: 0,
            current_wood: 0,
            current_food: 0,
            current_player: 0,
            turn_count: 0,
            started: false,
            storm,
        };
        proof {
            assert(g@.players =~= Map::<u8, PlayerView>::empty());
            assert(g@ =~= initial_view(g@.weathers, g@.storm_turn));
        }
        g
    }
}

impl GameState {
    /// Builds a session over a caller-supplied schedule, so that a
    /// fixed schedule can drive a session deterministically. Succeeds
    /// exactly when the schedule has one entry per turn, every code is
    /// a closed small value, and the storm turn lies in the mid-game
    /// window; the session then starts from the initial view.
    pub fn with_schedule(weathers: Vec<u8>, storm_turn: u8) -> (r: Option<GameState>)
        ensures
            ({
                let valid = weathers@.len() == SCHEDULE_LEN && (forall|i: int|
                    0 <= i < weathers@.len() ==> weathers@[i] <= 3) && 6 <= storm_turn <= 11;
                match r {
                    Some(g) => valid && g@ == initial_view(weathers@, storm_turn) && g@.wf(),
                    None => !valid,
                }
            }),
    {
        if weathers.len() != SCHEDULE_LEN {
            return None;
        }
        if !(6 <= storm_turn && storm_turn <= 11) {
            return None;
        }
        let mut i: usize = 0;
        while i < weathers.len()
            invariant
                i <= weathers@.len(),
                forall|j: int| 0 <= j < i ==> weathers@[j] <= 3,
            decreases weathers@.len() - i,
        {
            if weathers[i] > 3 {
                return None;
            }
            i += 1;
        }
        let g = GameState {
            weathers,
            players: HashMap::new(),
            current_water: 0,
            current_wood: 0,
            current_food: 0,
            current_player: 0,
            turn_count: 0,
            started: false,
            storm: storm_turn,
        };
        proof {
            assert(g@.players =~= Map::<u8, PlayerView>::empty());
            assert(g@ =~= initial_view(g@.weathers, g@.storm_turn));
        }
        Some(g)
    }

    /// The redacted snapshot of the session, as [`spec_board`] derives
    /// it: repeated calls on an unchanged state return equal snapshots,
    /// and the storm flag is set exactly on the storm turn.
    pub fn to_board_state(&self) -> (b: BoardState)
        requires
            self@.wf(),
        ensures
            b@ == spec_board(self@),
    {
        let b = BoardState {
            weather: self.weathers[self.turn_count as usize],
            storm: self.storm == self.turn_count,
            players: self.players.clone(),
            current_water: self.current_water,
            current_wood: self.current_wood,
            current_food: self.current_food,
            current_player: self.current_player,
            turn_count: self.turn_count,
            started: self.started,
        };
        proof {
            assert(b@ =~= spec_board(self@));
        }
        b
    }

    /// Registers a new player, as [`spec_add_player`] states: a silent
    /// no-op once the session has started or when the id is taken;
    /// otherwise the player joins connected, and the first player to
    /// join becomes the current player.
    pub fn add_player(&mut self, player_name: String, id: u8)
        requires
            old(self)@.wf(),
        ensures
            final(self)@.wf(),
            final(self)@ == spec_add_player(old(self)@, player_name@, id),
    {
        if self.started {
            return ;
        }
        if self.players.contains_key(&id) {
            return ;
        }
        let was_empty = self.players.is_empty();
        self.players.insert(id, Player::new(player_name));
        if was_empty {
            self.current_player = id;
        }
        proof {
            assert(self@ =~= spec_add_player(old(self)@, player_name@, id));
        }
    }

    /// Clears the connectivity flag of the player under the id, as
    /// [`spec_disconnect`] states; an unknown id is a no-op. The roster
    /// entry itself persists for a later rejoin.
    pub fn on_player_disconnected(&mut self, id: u8)
        requires
            old(self)@.wf(),
        ensures
            final(self)@.wf(),
            final(self)@ == spec_disconnect(old(self)@, id),
    {
        match self.players.remove(&id) {
            Some(p) => {
                self.players.insert(id, Player { name: p.name, connected: false });
                proof {
                    assert(self@ =~= spec_disconnect(old(self)@, id));
                }
            },
            None => {
                proof {
                    assert(self@ =~= old(self)@);
                }
            },
        }
    }

    /// Marks the session as started, which closes the roster: from
    /// here on a join request is a silent no-op. The trigger belongs
    /// to the session driver; nothing else flips the flag, so the
    /// transition happens at most once.
    pub fn start(&mut self)
        requires
            old(self)@.wf(),
        ensures
            final(self)@.wf(),
            final(self)@ == (GameView { started: true, ..old(self)@ }),
    {
        self.started = true;
        proof {
            assert(self@ =~= (GameView { started: true, ..old(self)@ }));
        }
    }

    /// Wood collection is a deliberate extension seam: the action
    /// exists on the wire, but the draw has no effect on the session
    /// yet.
    pub fn draw_wood(&mut self, _player_id: u8, _draws: u8)
        ensures
            *final(self) == *old(self),
    {
    }

    /// The food yield for one uniform roll below six, exactly as
    /// [`spec_food_units`] states it.
    pub fn food_units(roll: u8) -> (u: u8)
        requires
            roll < 6,
        ensures
            u == spec_food_units(roll),
    {
        if roll < 3 {
            1
        } else if roll < 5 {
            2
        } else {
            3
        }
    }

    /// One food draw: the shared food counter grows by the yield of a
    /// uniform roll — 1, 2 or 3 units — and nothing else changes. The
    /// counter must have room for the largest draw.
    pub fn draw_food(&mut self)
        requires
            old(self)@.current_food + 3 <= u8::MAX,
        ensures
            exists|roll: u8|
                roll < 6 && final(self)@ == (GameView {
                    current_food: (old(self)@.current_food + #[trigger] spec_food_units(roll))
                        as u8,
                    ..old(self)@
                }),
    {
        let roll = schedule::rand_below(6) as u8;
        let units = Self::food_units(roll);
        self.current_food = self.current_food + units;
        proof {
            assert(roll < 6 && self@ =~= (GameView {
                current_food: (old(self)@.current_food + spec_food_units(roll)) as u8,
                ..old(self)@
            }));
        }
    }

    /// One water collection: the shared water counter grows by today's
    /// weather code, as [`spec_collect_water`] states, and nothing else
    /// changes. The counter must have room for today's yield.
    pub fn collect_water(&mut self)
        requires
            old(self)@.wf(),
            old(self)@.current_water + old(self)@.weathers[old(self)@.turn_count as int]
                <= u8::MAX,
        ensures
            final(self)@.wf(),
            final(self)@ == spec_collect_water(old(self)@),
    {
        let w = self.weathers[self.turn_count as usize];
        self.current_water = self.current_water + w;
        proof {
            assert(self@ =~= spec_collect_water(old(self)@));
        }
    }

    /// Tests whether the session can absorb the action without a
    /// counter overflowing, exactly as [`spec_action_allowed`] states:
    /// the guard an unverified caller runs before
    /// [`GameState::perform_action`].
    pub fn can_perform(&self, action: &PlayerAction) -> (b: bool)
        requires
            self@.wf(),
        ensures
            b == spec_action_allowed(self@, *action),
    {
        match action {
            PlayerAction::LogIn { .. } => true,
            PlayerAction::CollectFood => self.current_food <= u8::MAX - 3,
            PlayerAction::CollectWater => {
                let w = self.weathers[self.turn_count as usize];
                self.current_water <= u8::MAX - w
            },
            PlayerAction::CollectWood { .. } => true,
        }
    }

    /// Applies one client action to the session: a login joins the
    /// roster, food and water collection grow the shared counters, and
    /// a wood draw is the documented no-op. No action advances the turn
    /// or reseats the current player; that is [`GameState::end_turn`]'s
    /// business.
    pub fn perform_action(&mut self, action: PlayerAction, id: u8)
        requires
            old(self)@.wf(),
            spec_action_allowed(old(self)@, action),
        ensures
            final(self)@.wf(),
            match action {
                PlayerAction::LogIn { player_name } => final(self)@ == spec_add_player(
                    old(self)@,
                    player_name@,
                    id,
                ),
                PlayerAction::CollectFood => exists|roll: u8|
                    roll < 6 && final(self)@ == (GameView {
                        current_food: (old(self)@.current_food + #[trigger] spec_food_units(roll))
                            as u8,
                        ..old(self)@
                    }),
                PlayerAction::CollectWater => final(self)@ == spec_collect_water(old(self)@),
                PlayerAction::CollectWood { .. } => *final(self) == *old(self),
            },
    {
        match action {
            PlayerAction::LogIn { player_name } => self.add_player(player_name, id),
            PlayerAction::CollectFood => self.draw_food(),
            PlayerAction::CollectWater => self.collect_water(),
            PlayerAction::CollectWood { draws } => self.draw_wood(id, draws),
        }
    }

    /// The connected player whose seat follows `cur` in cyclic id
    /// order, if anyone is connected: the one at the least
    /// [`seat_distance`] from `cur`.
    fn next_connected(&self, cur: u8) -> (r: Option<u8>)
        ensures
            match r {
                Some(id) => is_connected(self@, id) && forall|j: u8|
                    #[trigger] is_connected(self@, j) ==> seat_distance(cur, id) <= seat_distance(
                        cur,
                        j,
                    ),
                None => forall|j: u8| !(#[trigger] is_connected(self@, j)),
            },
    {
        let mut k: u16 = 1;
        while k <= 256
            invariant
                1 <= k <= 257,
                forall|j: u8| seat_distance(cur, j) < k ==> !(#[trigger] is_connected(self@, j)),
            decreases 257 - k,
        {
            let id = (((cur as u16) + k) % 256) as u8;
            proof {
                assert(seat_distance(cur, id) == k);
            }
            match self.players.get(&id) {
                Some(p) => {
                    if p.connected {
                        return Some(id);
                    }
                },
                None => {},
            }
            proof {
                assert forall|j: u8| seat_distance(cur, j) < k + 1 implies !is_connected(
                    self@,
                    j,
                ) by {
                    if seat_distance(cur, j) == k {
                        assert(j == id);
                    }
                }
            }
            k += 1;
        }
        proof {
            assert forall|j: u8| !is_connected(self@, j) by {
                assert(1 <= seat_distance(cur, j) <= 256);
            }
        }
        None
    }

    /// Ends the turn: advances the turn index while the schedule still
    /// has a next entry, and passes the seat to the next connected
    /// player in cyclic id order — with nobody connected the seat
    /// stays. No client action does either; this transition completes
    /// the state machine and is the session driver's to call.
    pub fn end_turn(&mut self)
        requires
            old(self)@.wf(),
        ensures
            final(self)@.wf(),
            final(self)@.turn_count == if old(self)@.turn_count + 1 < SCHEDULE_LEN {
                old(self)@.turn_count + 1
            } else {
                old(self)@.turn_count as int
            },
            final(self)@ == (GameView {
                turn_count: final(self)@.turn_count,
                current_player: final(self)@.current_player,
                ..old(self)@
            }),
            (exists|j: u8| #[trigger] is_connected(old(self)@, j)) ==> is_connected(
                old(self)@,
                final(self)@.current_player,
            ) && forall|j: u8|
                #[trigger] is_connected(old(self)@, j) ==> seat_distance(
                    old(self)@.current_player,
                    final(self)@.current_player,
                ) <= seat_distance(old(self)@.current_player, j),
            (forall|j: u8| !(#[trigger] is_connected(old(self)@, j)))
                ==> final(self)@.current_player == old(self)@.current_player,
    {
        let cur = self.current_player;
        let next = self.next_connected(cur);
        if (self.turn_count as usize) + 1 < SCHEDULE_LEN {
            self.turn_count = self.turn_count + 1;
        }
        match next {
            Some(id) => {
                self.current_player = id;
            },
            None => {},
        }
        proof {
            assert(self@ =~= (GameView {
                turn_count: self@.turn_count,
                current_player: self@.current_player,
                ..old(self)@
            }));
        }
    }
}

} // verus!
