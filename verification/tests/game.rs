use survival_core::player::Player;
use survival_core::state::{GameState, PlayerAction};

/// A fixed 12-entry schedule: `first` on turn 0, then all calm.
fn fixed_state(first: u8, storm_turn: u8) -> GameState {
    let mut weathers = vec![0u8; 12];
    weathers[0] = first;
    GameState::with_schedule(weathers, storm_turn).expect("schedule is valid")
}

#[test]
fn fresh_session_defaults() {
    let game = GameState::default();
    let board = game.to_board_state();
    assert_eq!(board.turn_count, 0);
    assert_eq!(board.current_water, 0);
    assert_eq!(board.current_wood, 0);
    assert_eq!(board.current_food, 0);
    assert_eq!(board.current_player, 0);
    assert!(!board.started);
    assert!(board.players.is_empty());
    assert!(board.weather <= 3);
}

#[test]
fn with_schedule_rejects_bad_input() {
    assert!(GameState::with_schedule(vec![0u8; 11], 6).is_none());
    assert!(GameState::with_schedule(vec![0u8; 13], 6).is_none());
    let mut bad_code = vec![0u8; 12];
    bad_code[4] = 4;
    assert!(GameState::with_schedule(bad_code, 6).is_none());
    assert!(GameState::with_schedule(vec![0u8; 12], 5).is_none());
    assert!(GameState::with_schedule(vec![0u8; 12], 12).is_none());
    assert!(GameState::with_schedule(vec![0u8; 12], 6).is_some());
}

#[test]
fn weather_lookup_stability() {
    let mut weathers = vec![0u8; 12];
    weathers[6] = 3;
    let mut game = GameState::with_schedule(weathers, 6).expect("schedule is valid");
    for _ in 0..3 {
        let board = game.to_board_state();
        assert_eq!(board.weather, 0);
        assert!(!board.storm);
    }
    for _ in 0..6 {
        game.end_turn();
    }
    // Turn six is the storm turn of this schedule.
    for _ in 0..3 {
        let board = game.to_board_state();
        assert_eq!(board.turn_count, 6);
        assert_eq!(board.weather, 3);
        assert!(board.storm);
    }
    game.end_turn();
    let board = game.to_board_state();
    assert!(!board.storm);
}

#[test]
fn first_player_becomes_current() {
    let mut game = fixed_state(0, 6);
    game.add_player(String::from("alice"), 7);
    game.add_player(String::from("bob"), 3);
    let board = game.to_board_state();
    assert_eq!(board.current_player, 7);
    assert_eq!(board.players.len(), 2);
    assert_eq!(board.players.get(&7).expect("alice joined").name, "alice");
    assert!(board.players.get(&7).expect("alice joined").connected);
}

#[test]
fn roster_gating_after_start() {
    let mut game = fixed_state(0, 6);
    game.add_player(String::from("alice"), 1);
    game.start();
    game.add_player(String::from("bob"), 2);
    let board = game.to_board_state();
    assert!(board.started);
    assert_eq!(board.players.len(), 1);
    assert!(board.players.get(&2).is_none());
}

#[test]
fn duplicate_join_keeps_first_name() {
    let mut game = fixed_state(0, 6);
    game.add_player(String::from("alice"), 5);
    game.add_player(String::from("bob"), 5);
    let board = game.to_board_state();
    assert_eq!(board.players.len(), 1);
    assert_eq!(board.players.get(&5).expect("id 5 joined").name, "alice");
}

#[test]
fn water_collection_is_todays_weather() {
    let mut game = fixed_state(1, 6);
    let before = game.to_board_state().current_water;
    game.perform_action(PlayerAction::CollectWater, 0);
    let after = game.to_board_state().current_water;
    assert_eq!(before, 0);
    assert_eq!(after, 1);
}

#[test]
fn water_collection_adds_zero_on_calm_turn() {
    let mut game = fixed_state(0, 6);
    game.perform_action(PlayerAction::CollectWater, 0);
    assert_eq!(game.to_board_state().current_water, 0);
}

#[test]
fn food_draw_bounds_and_mean() {
    let draws: u32 = 10_000;
    let mut total: u64 = 0;
    for _ in 0..draws {
        let mut game = fixed_state(0, 6);
        game.perform_action(PlayerAction::CollectFood, 0);
        let food = game.to_board_state().current_food;
        assert!((1..=3).contains(&food), "one draw yielded {}", food);
        total += food as u64;
    }
    let mean = total as f64 / draws as f64;
    // The distribution mean is 1*1/2 + 2*1/3 + 3*1/6 = 5/3; the sample
    // mean of 10,000 draws strays from it by far less than 0.1.
    assert!(
        (mean - 5.0 / 3.0).abs() < 0.1,
        "sample mean {} is far from 5/3",
        mean
    );
}

#[test]
fn food_units_mapping_is_exact() {
    assert_eq!(GameState::food_units(0), 1);
    assert_eq!(GameState::food_units(1), 1);
    assert_eq!(GameState::food_units(2), 1);
    assert_eq!(GameState::food_units(3), 2);
    assert_eq!(GameState::food_units(4), 2);
    assert_eq!(GameState::food_units(5), 3);
}

#[test]
fn wood_draw_is_a_no_op() {
    let mut game = fixed_state(2, 6);
    game.add_player(String::from("alice"), 1);
    game.perform_action(PlayerAction::CollectWood { draws: 4 }, 1);
    let board = game.to_board_state();
    assert_eq!(board.current_wood, 0);
    assert_eq!(board.current_water, 0);
    assert_eq!(board.current_food, 0);
    assert_eq!(board.players.len(), 1);
}

#[test]
fn login_action_joins_roster() {
    let mut game = fixed_state(0, 6);
    game.perform_action(
        PlayerAction::LogIn {
            player_name: String::from("carol"),
        },
        9,
    );
    let board = game.to_board_state();
    assert_eq!(board.players.len(), 1);
    assert_eq!(board.players.get(&9).expect("carol joined").name, "carol");
    assert_eq!(board.current_player, 9);
}

#[test]
fn disconnect_idempotence() {
    let mut game = fixed_state(0, 6);
    game.add_player(String::from("alice"), 4);
    game.on_player_disconnected(4);
    assert!(!game.to_board_state().players.get(&4).expect("alice stays").connected);
    game.on_player_disconnected(4);
    let board = game.to_board_state();
    assert!(!board.players.get(&4).expect("alice stays").connected);
    assert_eq!(board.players.len(), 1);
    assert_eq!(board.players.get(&4).expect("alice stays").name, "alice");
}

#[test]
fn disconnect_unknown_id_is_a_no_op() {
    let mut game = fixed_state(0, 6);
    game.add_player(String::from("alice"), 4);
    game.on_player_disconnected(200);
    let board = game.to_board_state();
    assert_eq!(board.players.len(), 1);
    assert!(board.players.get(&4).expect("alice stays").connected);
}

#[test]
fn snapshot_redacts_future_schedule() {
    // Two sessions agreeing only on today's entry, with different
    // futures and different storm turns, look identical to a client.
    let mut one = vec![0u8; 12];
    one[0] = 2;
    let mut two = vec![3u8; 12];
    two[0] = 2;
    let game_one = GameState::with_schedule(one, 6).expect("schedule is valid");
    let game_two = GameState::with_schedule(two, 11).expect("schedule is valid");
    let board_one = game_one.to_board_state();
    let board_two = game_two.to_board_state();
    assert_eq!(board_one.weather, board_two.weather);
    assert_eq!(board_one.storm, board_two.storm);
    assert_eq!(board_one.turn_count, board_two.turn_count);
    assert_eq!(board_one.current_water, board_two.current_water);
    assert_eq!(board_one.started, board_two.started);
}

#[test]
fn end_turn_rotates_to_next_connected_seat() {
    let mut game = fixed_state(0, 6);
    game.add_player(String::from("alice"), 1);
    game.add_player(String::from("bob"), 2);
    game.add_player(String::from("carol"), 5);
    assert_eq!(game.to_board_state().current_player, 1);
    game.end_turn();
    assert_eq!(game.to_board_state().current_player, 2);
    game.on_player_disconnected(5);
    game.end_turn();
    // Carol is disconnected, so the seat wraps past her back to Alice.
    assert_eq!(game.to_board_state().current_player, 1);
}

#[test]
fn end_turn_keeps_seat_with_nobody_connected() {
    let mut game = fixed_state(0, 6);
    game.add_player(String::from("alice"), 3);
    game.on_player_disconnected(3);
    game.end_turn();
    assert_eq!(game.to_board_state().current_player, 3);
}

#[test]
fn turn_count_stops_at_last_schedule_entry() {
    let mut game = fixed_state(0, 6);
    for _ in 0..20 {
        game.end_turn();
    }
    assert_eq!(game.to_board_state().turn_count, 11);
}

#[test]
fn can_perform_guards_food_overflow() {
    let mut game = fixed_state(0, 6);
    assert!(game.can_perform(&PlayerAction::CollectFood));
    assert!(game.can_perform(&PlayerAction::CollectWater));
    assert!(game.can_perform(&PlayerAction::CollectWood { draws: 1 }));
    let mut rounds = 0u32;
    while game.can_perform(&PlayerAction::CollectFood) {
        game.perform_action(PlayerAction::CollectFood, 0);
        rounds += 1;
        assert!(rounds <= 255, "the food counter never filled up");
    }
    let food = game.to_board_state().current_food;
    assert!(food >= 253, "guard tripped early at {}", food);
}

#[test]
fn player_new_is_connected() {
    let player = Player::new(String::from("dave"));
    assert_eq!(player.name, "dave");
    assert!(player.connected);
}
