use card::state::game::Game;
use anchor_lang::prelude::Pubkey;
use card::errors::CardGameError;
use card::state::model::{Card, GameState};

fn alice() -> Pubkey {
    Pubkey::new_from_array([1u8; 32])
}

fn bob() -> Pubkey {
    Pubkey::new_from_array([2u8; 32])
}

fn unit(hp: i8, atk: i8, mana_cost: i8, ready: bool) -> Card {
    Card { hp, atk, mana_cost, ready }
}

fn started(p1_hand: Vec<Card>, p2_hand: Vec<Card>) -> Game {
    let mut game = Game::new();
    assert_eq!(game.start([alice(), bob()], p1_hand, p2_hand), Ok(()));
    game
}

#[test]
fn new_game_is_unstarted_and_empty() {
    let game = Game::new();
    assert_eq!(game.turn, 0);
    assert_eq!(game.state, GameState::Active);
    assert!(game.board_is_empty());
    assert!(game.p1_hand.is_empty());
    assert!(game.p2_hand.is_empty());
    assert_eq!(game.health, [0, 0]);
    assert_eq!(game.mana, [0, 0]);
}

#[test]
fn start_sets_initial_values() {
    let h1 = vec![unit(1, 2, 3, false)];
    let h2 = vec![unit(4, 5, 6, true), unit(7, 8, 9, false)];
    let game = started(h1.clone(), h2.clone());
    assert_eq!(game.turn, 1);
    assert_eq!(game.health, [30, 30]);
    assert_eq!(game.mana, [1, 1]);
    assert_eq!(game.players, [alice(), bob()]);
    assert_eq!(game.p1_hand, h1);
    assert_eq!(game.p2_hand, h2);
    assert_eq!(game.get_game_state(), GameState::Active);
    assert!(game.is_active());
    assert!(game.board_is_empty());
    assert_eq!(game.current_player(), alice());
}

#[test]
fn start_twice_is_rejected_and_changes_nothing() {
    let mut game = started(vec![unit(1, 1, 1, true)], vec![]);
    let before = game.clone();
    let again = game.start([bob(), alice()], vec![], vec![unit(9, 9, 9, true)]);
    assert_eq!(again, Err(CardGameError::GameAlreadyStarted));
    assert_eq!(game, before);
}

#[test]
fn turn_alternates_between_players() {
    let mut game = started(vec![unit(1, 1, 1, true)], vec![]);
    for n in 0..40usize {
        assert_eq!(game.current_player_index(), n % 2);
        assert_eq!(game.current_player_row(), 1 - n % 2);
        assert_eq!(game.current_player(), if n % 2 == 0 { alice() } else { bob() });
        assert_eq!(game.turn as usize, n + 1);
        assert_eq!(game.end_turn(), Ok(()));
    }
}

#[test]
fn play_card_pays_cost_and_shrinks_hand() {
    let c0 = unit(1, 1, 0, false);
    let c1 = unit(2, 2, 1, false);
    let c2 = unit(3, 3, 0, true);
    let c3 = unit(4, 4, 5, true);
    let mut game = started(vec![c0, c1, c2, c3], vec![c3]);
    assert_eq!(game.play_card(4, 1), Ok(()));
    assert_eq!(game.p1_hand, vec![c0, c2, c3]);
    assert_eq!(game.p2_hand, vec![c3]);
    assert_eq!(game.mana, [0, 1]);
    assert_eq!(game.board[1][4], Some(c1));
    for slot in 0..7usize {
        assert_eq!(game.board[0][slot], None);
        if slot != 4 {
            assert_eq!(game.board[1][slot], None);
        }
    }
    assert_eq!(game.health, [30, 30]);
    assert_eq!(game.turn, 1);
    assert_eq!(game.state, GameState::Active);
    assert_eq!(game.play_card(0, 0), Ok(()));
    assert_eq!(game.p1_hand, vec![c2, c3]);
    assert_eq!(game.mana, [0, 1]);
}

#[test]
fn play_card_by_player_two_uses_top_row() {
    let c = unit(2, 2, 1, false);
    let mut game = started(vec![c], vec![c, unit(1, 1, 1, true)]);
    assert_eq!(game.end_turn(), Ok(()));
    assert_eq!(game.play_card(6, 0), Ok(()));
    assert_eq!(game.board[0][6], Some(c));
    assert_eq!(game.board[1][6], None);
    assert_eq!(game.p2_hand, vec![unit(1, 1, 1, true)]);
    assert_eq!(game.p1_hand, vec![c]);
    assert_eq!(game.mana, [2, 0]);
}

#[test]
fn play_card_keeps_ready_flag_of_the_hand() {
    let mut game = started(vec![unit(1, 1, 0, true), unit(1, 1, 0, false)], vec![]);
    assert_eq!(game.play_card(0, 0), Ok(()));
    assert_eq!(game.play_card(1, 0), Ok(()));
    assert_eq!(game.board[1][0], Some(unit(1, 1, 0, true)));
    assert_eq!(game.board[1][1], Some(unit(1, 1, 0, false)));
}

#[test]
fn play_card_insufficient_mana() {
    let mut game = started(vec![unit(1, 1, 2, true)], vec![]);
    let before = game.clone();
    assert_eq!(game.play_card(0, 0), Err(CardGameError::InsufficientMana));
    assert_eq!(game, before);
}

#[test]
fn play_card_cost_equal_to_mana_leaves_zero() {
    let mut game = started(vec![unit(1, 1, 1, true)], vec![unit(1, 1, 1, true)]);
    assert_eq!(game.play_card(0, 0), Ok(()));
    assert_eq!(game.mana[0], 0);
}

#[test]
fn play_card_tile_out_of_bounds() {
    let mut game = started(vec![unit(1, 1, 1, true)], vec![]);
    let before = game.clone();
    assert_eq!(game.play_card(7, 0), Err(CardGameError::TileOutOfBounds));
    assert_eq!(game.play_card(255, 0), Err(CardGameError::TileOutOfBounds));
    assert_eq!(game.play_card(7, 9), Err(CardGameError::TileOutOfBounds));
    assert_eq!(game, before);
}

#[test]
fn play_card_tile_already_set() {
    let mut game = started(vec![unit(1, 1, 0, true), unit(2, 2, 0, true)], vec![]);
    assert_eq!(game.play_card(3, 0), Ok(()));
    let before = game.clone();
    assert_eq!(game.play_card(3, 0), Err(CardGameError::TileAlreadySet));
    assert_eq!(game.play_card(3, 200), Err(CardGameError::TileAlreadySet));
    assert_eq!(game, before);
}

#[test]
fn play_card_index_out_of_bounds() {
    let mut game = started(vec![unit(1, 1, 0, true)], vec![unit(1, 1, 0, true); 3]);
    let before = game.clone();
    assert_eq!(game.play_card(0, 1), Err(CardGameError::CardIndexOutOfBounds));
    assert_eq!(game.play_card(0, 255), Err(CardGameError::CardIndexOutOfBounds));
    assert_eq!(game, before);
}

#[test]
fn place_puts_card_or_refuses() {
    let mut game = Game::new();
    let c = unit(3, 2, 1, true);
    assert_eq!(game.place(0, 6, c), Ok(()));
    assert_eq!(game.board[0][6], Some(c));
    let before = game.clone();
    assert_eq!(game.place(0, 6, c), Err(CardGameError::TileAlreadySet));
    assert_eq!(game.place(0, 7, c), Err(CardGameError::TileOutOfBounds));
    assert_eq!(game.place(1, 7, c), Err(CardGameError::TileOutOfBounds));
    assert_eq!(game, before);
    assert!(!game.board_is_empty());
}

#[test]
fn update_board_removes_the_dead_only() {
    let mut game = Game::new();
    game.board[0][0] = Some(unit(0, 1, 1, true));
    game.board[0][3] = Some(unit(1, 1, 1, true));
    game.board[1][2] = Some(unit(-5, 1, 1, false));
    game.board[1][6] = Some(unit(127, 1, 1, false));
    game.update_board();
    assert_eq!(game.board[0][0], None);
    assert_eq!(game.board[0][3], Some(unit(1, 1, 1, true)));
    assert_eq!(game.board[1][2], None);
    assert_eq!(game.board[1][6], Some(unit(127, 1, 1, false)));
}

#[test]
fn mutual_combat_damage() {
    let mut game = started(vec![unit(1, 1, 1, true)], vec![]);
    game.board[1][2] = Some(unit(5, 3, 1, true));
    game.board[0][4] = Some(unit(2, 4, 1, false));
    assert_eq!(game.attack(2, 4), Ok(()));
    assert_eq!(game.board[1][2], Some(unit(1, 3, 1, false)));
    assert_eq!(game.board[0][4], None);
    assert_eq!(game.health, [30, 30]);
    assert_eq!(game.state, GameState::Active);
}

#[test]
fn mutual_destruction_is_possible() {
    let mut game = started(vec![unit(1, 1, 1, true)], vec![]);
    game.board[1][0] = Some(unit(3, 3, 1, true));
    game.board[0][0] = Some(unit(3, 3, 1, true));
    assert_eq!(game.attack(0, 0), Ok(()));
    assert_eq!(game.board[1][0], None);
    assert_eq!(game.board[0][0], None);
}

#[test]
fn attack_unit_by_player_two_tires_the_top_unit() {
    let mut game = started(vec![unit(1, 1, 1, true)], vec![]);
    assert_eq!(game.end_turn(), Ok(()));
    game.board[1][1] = Some(unit(9, 1, 1, false));
    game.board[0][5] = Some(unit(9, 2, 1, true));
    assert_eq!(game.attack(1, 5), Ok(()));
    assert_eq!(game.board[1][1], Some(unit(7, 1, 1, false)));
    assert_eq!(game.board[0][5], Some(unit(8, 2, 1, false)));
    let before = game.clone();
    assert_eq!(game.attack(1, 5), Err(CardGameError::UnitIsNotReady));
    assert_eq!(game, before);
}

#[test]
fn attack_unit_not_ready() {
    let mut game = started(vec![unit(1, 1, 1, true)], vec![]);
    game.board[1][0] = Some(unit(5, 3, 1, false));
    game.board[0][0] = Some(unit(5, 3, 1, true));
    let before = game.clone();
    assert_eq!(game.attack(0, 0), Err(CardGameError::UnitIsNotReady));
    assert_eq!(game, before);
}

#[test]
fn attack_empty_board_space() {
    let mut game = started(vec![unit(1, 1, 1, true)], vec![]);
    game.board[1][0] = Some(unit(5, 3, 1, true));
    let before = game.clone();
    assert_eq!(game.attack(0, 0), Err(CardGameError::EmptyBoardSpace));
    assert_eq!(game.attack(1, 0), Err(CardGameError::EmptyBoardSpace));
    assert_eq!(game.attack(1, 7), Err(CardGameError::EmptyBoardSpace));
    assert_eq!(game, before);
}

#[test]
fn attack_position_out_of_bounds() {
    let mut game = started(vec![unit(1, 1, 1, true)], vec![]);
    game.board[1][3] = Some(unit(5, 3, 1, true));
    game.board[0][3] = Some(unit(5, 3, 1, true));
    let before = game.clone();
    assert_eq!(game.attack(7, 7), Err(CardGameError::PositionOutOfBounds));
    assert_eq!(game.attack(8, 3), Err(CardGameError::PositionOutOfBounds));
    assert_eq!(game.attack(3, 8), Err(CardGameError::PositionOutOfBounds));
    assert_eq!(game.attack(200, 3), Err(CardGameError::PositionOutOfBounds));
    assert_eq!(game.attack(255, 255), Err(CardGameError::PositionOutOfBounds));
    assert_eq!(game, before);
}

#[test]
fn attack_hero_takes_attack_from_the_other_hero() {
    let mut game = started(vec![unit(1, 1, 1, true)], vec![]);
    game.board[1][2] = Some(unit(5, 4, 1, true));
    assert_eq!(game.attack(2, 7), Ok(()));
    assert_eq!(game.health, [30, 26]);
    assert_eq!(game.board[1][2], Some(unit(5, 4, 1, false)));
    let before = game.clone();
    assert_eq!(game.attack(2, 7), Err(CardGameError::UnitIsNotReady));
    assert_eq!(game, before);
}

#[test]
fn attack_hero_by_player_two() {
    let mut game = started(vec![unit(1, 1, 1, true)], vec![]);
    assert_eq!(game.end_turn(), Ok(()));
    game.board[0][6] = Some(unit(5, 7, 1, true));
    game.board[1][6] = Some(unit(5, 9, 1, true));
    assert_eq!(game.attack(7, 6), Ok(()));
    assert_eq!(game.health, [23, 30]);
    assert_eq!(game.board[0][6], Some(unit(5, 7, 1, false)));
    assert_eq!(game.board[1][6], Some(unit(5, 9, 1, true)));
}

#[test]
fn self_attack_guard() {
    let mut game = started(vec![unit(1, 1, 1, true)], vec![]);
    for row in 0..2usize {
        for slot in 0..7usize {
            game.board[row][slot] = Some(unit(5, 5, 1, true));
        }
    }
    let before = game.clone();
    for x in 0..=6u8 {
        assert_eq!(game.attack(7, x), Err(CardGameError::CannotAttackOwnHero));
    }
    assert_eq!(game, before);
    assert_eq!(game.end_turn(), Ok(()));
    let before = game.clone();
    for x in 0..=6u8 {
        assert_eq!(game.attack(x, 7), Err(CardGameError::CannotAttackOwnHero));
    }
    assert_eq!(game, before);
}

#[test]
fn self_attack_guard_on_empty_board() {
    let mut game = started(vec![unit(1, 1, 1, true)], vec![]);
    assert_eq!(game.attack(7, 0), Err(CardGameError::CannotAttackOwnHero));
    assert_eq!(game.end_turn(), Ok(()));
    assert_eq!(game.attack(0, 7), Err(CardGameError::CannotAttackOwnHero));
}

#[test]
fn hero_win_and_rejection_afterwards() {
    let striker = unit(5, 10, 1, true);
    let mut game = started(vec![striker, unit(1, 1, 0, true)], vec![unit(1, 1, 0, true)]);
    assert_eq!(game.play_card(0, 0), Ok(()));
    assert_eq!(game.attack(0, 7), Ok(()));
    assert_eq!(game.health, [30, 20]);
    assert_eq!(game.end_turn(), Ok(()));
    assert_eq!(game.end_turn(), Ok(()));
    assert_eq!(game.attack(0, 7), Ok(()));
    assert_eq!(game.health, [30, 10]);
    assert_eq!(game.get_game_state(), GameState::Active);
    assert_eq!(game.end_turn(), Ok(()));
    assert_eq!(game.end_turn(), Ok(()));
    assert_eq!(game.attack(0, 7), Ok(()));
    assert_eq!(game.health, [30, 0]);
    assert_eq!(game.get_game_state(), GameState::Won { winner: alice() });
    assert!(!game.is_active());
    let before = game.clone();
    assert_eq!(game.play_card(1, 0), Err(CardGameError::GameAlreadyOver));
    assert_eq!(game.attack(0, 7), Err(CardGameError::GameAlreadyOver));
    assert_eq!(game.attack(9, 9), Err(CardGameError::GameAlreadyOver));
    assert_eq!(game.end_turn(), Err(CardGameError::GameAlreadyOver));
    assert_eq!(game, before);
}

#[test]
fn hero_win_for_player_two() {
    let mut game = started(vec![unit(1, 1, 1, true)], vec![unit(1, 1, 1, true)]);
    assert_eq!(game.end_turn(), Ok(()));
    game.health = [3, 30];
    game.board[0][1] = Some(unit(1, 5, 1, true));
    assert_eq!(game.attack(7, 1), Ok(()));
    assert_eq!(game.health, [-2, 30]);
    assert_eq!(game.get_game_state(), GameState::Won { winner: bob() });
}

#[test]
fn tie_when_board_and_hands_are_empty() {
    let c = unit(1, 1, 0, true);
    let mut game = started(vec![c], vec![c]);
    assert_eq!(game.play_card(0, 0), Ok(()));
    assert_eq!(game.get_game_state(), GameState::Active);
    assert_eq!(game.end_turn(), Ok(()));
    assert_eq!(game.play_card(0, 0), Ok(()));
    assert_eq!(game.get_game_state(), GameState::Active);
    assert_eq!(game.attack(0, 0), Ok(()));
    assert!(game.board_is_empty());
    assert_eq!(game.health, [30, 30]);
    assert_eq!(game.get_game_state(), GameState::Tie);
    let before = game.clone();
    assert_eq!(game.play_card(0, 0), Err(CardGameError::GameAlreadyOver));
    assert_eq!(game.attack(0, 0), Err(CardGameError::GameAlreadyOver));
    assert_eq!(game.end_turn(), Err(CardGameError::GameAlreadyOver));
    assert_eq!(game, before);
}

#[test]
fn update_state_finds_a_win_before_a_tie() {
    let mut game = started(vec![], vec![]);
    game.health = [0, 5];
    game.update_state();
    assert_eq!(game.state, GameState::Won { winner: bob() });
    let mut game = started(vec![], vec![]);
    game.health = [5, -1];
    game.update_state();
    assert_eq!(game.state, GameState::Won { winner: alice() });
}

#[test]
fn update_state_tie_and_active() {
    let mut game = started(vec![], vec![]);
    game.update_state();
    assert_eq!(game.state, GameState::Tie);
    let mut game = started(vec![], vec![unit(1, 1, 1, true)]);
    game.update_state();
    assert_eq!(game.state, GameState::Active);
    let mut game = started(vec![], vec![]);
    game.board[0][0] = Some(unit(1, 1, 1, true));
    game.update_state();
    assert_eq!(game.state, GameState::Active);
    let mut game = started(vec![], vec![]);
    game.board[1][6] = Some(unit(1, 1, 1, true));
    game.health = [0, 0];
    game.update_state();
    assert_eq!(game.state, GameState::Active);
}

#[test]
fn end_turn_mana_ramp_values() {
    let mut game = started(vec![unit(1, 1, 1, true)], vec![]);
    let expected: [[i8; 2]; 8] =
        [[2, 1], [2, 2], [3, 2], [3, 3], [4, 3], [4, 4], [5, 4], [5, 5]];
    for row in expected {
        assert_eq!(game.end_turn(), Ok(()));
        assert_eq!(game.mana, row);
    }
    assert_eq!(game.turn, 9);
}

#[test]
fn end_turn_leaves_a_full_pool_alone() {
    let mut game = started(vec![unit(1, 1, 1, true)], vec![]);
    game.mana = [10, 9];
    assert_eq!(game.end_turn(), Ok(()));
    assert_eq!(game.mana, [10, 9]);
    assert_eq!(game.end_turn(), Ok(()));
    assert_eq!(game.mana, [10, 2]);
    game.mana = [12, 2];
    assert_eq!(game.end_turn(), Ok(()));
    assert_eq!(game.mana, [12, 2]);
}

#[test]
fn end_turn_readies_only_the_current_row() {
    let mut game = started(vec![unit(1, 1, 1, true)], vec![]);
    game.board[1][0] = Some(unit(2, 2, 2, false));
    game.board[1][6] = Some(unit(3, 3, 3, true));
    game.board[0][0] = Some(unit(4, 4, 4, false));
    assert_eq!(game.end_turn(), Ok(()));
    assert_eq!(game.board[1][0], Some(unit(2, 2, 2, true)));
    assert_eq!(game.board[1][6], Some(unit(3, 3, 3, true)));
    assert_eq!(game.board[0][0], Some(unit(4, 4, 4, false)));
    assert_eq!(game.board[1][1], None);
    assert_eq!(game.end_turn(), Ok(()));
    assert_eq!(game.board[0][0], Some(unit(4, 4, 4, true)));
    assert_eq!(game.health, [30, 30]);
    assert_eq!(game.state, GameState::Active);
}

#[test]
fn match_pubkeys_in_either_order() {
    let game = started(vec![], vec![]);
    let carol = Pubkey::new_from_array([3u8; 32]);
    assert!(game.match_pubkeys([alice(), bob()]));
    assert!(game.match_pubkeys([bob(), alice()]));
    assert!(!game.match_pubkeys([alice(), alice()]));
    assert!(!game.match_pubkeys([alice(), carol]));
    assert!(!game.match_pubkeys([carol, bob()]));
}

#[test]
fn match_pubkeys_tells_keys_apart_by_one_byte() {
    let game = started(vec![], vec![]);
    let mut bytes = [1u8; 32];
    assert!(game.match_pubkeys([Pubkey::new_from_array(bytes), bob()]));
    bytes[31] = 0;
    assert!(!game.match_pubkeys([Pubkey::new_from_array(bytes), bob()]));
    assert!(!game.match_pubkeys([bob(), Pubkey::new_from_array(bytes)]));
    bytes[31] = 1;
    bytes[0] = 2;
    assert!(!game.match_pubkeys([Pubkey::new_from_array(bytes), bob()]));
}

#[test]
fn play_card_fits_tells_when_the_pool_would_overflow() {
    let mut game = started(vec![unit(1, 1, 1, true), unit(1, 1, -100, true)], vec![]);
    assert!(game.play_card_fits(0, 0));
    assert!(game.play_card_fits(0, 1));
    game.mana = [100, 1];
    assert!(game.play_card_fits(0, 0));
    assert!(!game.play_card_fits(0, 1));
    game.mana = [27, 1];
    assert!(game.play_card_fits(0, 1));
    game.mana = [28, 1];
    assert!(!game.play_card_fits(0, 1));
    assert!(game.play_card_fits(7, 1));
    assert!(game.play_card_fits(0, 2));
    game.state = GameState::Tie;
    assert!(game.play_card_fits(0, 1));
}

#[test]
fn attack_fits_tells_when_hit_points_would_overflow() {
    let mut game = started(vec![unit(1, 1, 1, true)], vec![]);
    game.board[1][0] = Some(unit(-128, 1, 1, true));
    game.board[0][0] = Some(unit(5, 1, 1, true));
    game.board[0][1] = Some(unit(5, 0, 1, true));
    game.board[1][1] = Some(unit(127, -1, 1, true));
    assert!(!game.attack_fits(0, 0));
    assert!(game.attack_fits(0, 1));
    assert!(game.attack_fits(1, 0));
    assert!(game.attack_fits(2, 0));
    assert!(game.attack_fits(1, 7));
    assert!(game.attack_fits(7, 1));
    assert!(game.attack_fits(9, 9));
    game.health = [30, 127];
    assert!(!game.attack_fits(1, 7));
    game.health = [30, 126];
    assert!(game.attack_fits(1, 7));
    game.board[1][1] = Some(unit(127, -1, 1, false));
    game.health = [30, 127];
    assert!(game.attack_fits(1, 7));
}

#[test]
fn end_turn_fits_tells_when_counter_or_pool_would_overflow() {
    let mut game = started(vec![unit(1, 1, 1, true)], vec![]);
    assert!(game.end_turn_fits());
    game.turn = 255;
    assert!(!game.end_turn_fits());
    game.turn = 253;
    game.mana = [9, 9];
    assert!(!game.end_turn_fits());
    game.mana = [10, 9];
    assert!(game.end_turn_fits());
    game.turn = 252;
    game.mana = [9, 9];
    assert!(game.end_turn_fits());
    assert_eq!(game.end_turn(), Ok(()));
    assert_eq!(game.mana, [9, 127]);
    game.turn = 255;
    game.state = GameState::Tie;
    assert!(game.end_turn_fits());
}
