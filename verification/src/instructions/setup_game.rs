use crate::errors::CardGameError;
use crate::state::game::Game;
use crate::state::leaderboard::Leaderboard;
use crate::state::model::{hand_view, Card, GameView};
use anchor_lang::solana_program::pubkey::Pubkey;
use crate::state::user::UserStats;
use vstd::prelude::*;

verus! {

/// Why a match between `p1` and `p2` cannot be set up, or `None`. Both
/// must be registered and free, and the record must be unused.
pub open spec fn setup_game_error(
    game: GameView,
    p1: Pubkey,
    p2: Pubkey,
    p1_stats: UserStats,
    p2_stats: UserStats,
    leaderboard: Leaderboard,
) -> Option<CardGameError> {
    if !leaderboard.has(p1) {
        Some(CardGameError::UserStatsAccountMissing)
    } else if p1_stats.active_game is Some {
        Some(CardGameError::YouHaveAnActiveGame)
    } else if !leaderboard.has(p2) {
        Some(CardGameError::OpposingStatsAccountMissing)
    } else if p2_stats.active_game is Some {
        Some(CardGameError::OpponentHasAnActiveGame)
    } else {
        game.start_error()
    }
}

/// Sets up a match between `p1` and `p2` on the record `game`, known to
/// the participants' records as `game_key`, and starts it.
pub fn setup_game(
    game: &mut Game,
    game_key: Pubkey,
    p1: Pubkey,
    p2: Pubkey,
    p1_stats: &mut UserStats,
    p2_stats: &mut UserStats,
    leaderboard: &Leaderboard,
    p1_hand: Vec<Card>,
    p2_hand: Vec<Card>,
) -> (result: Result<(), CardGameError>)
    ensures
        match result {
            Ok(()) => {
                &&& setup_game_error(
                    old(game)@,
                    p1,
                    p2,
                    *old(p1_stats),
                    *old(p2_stats),
                    *leaderboard,
                ) is None
                &&& *final(p1_stats) == old(p1_stats).engaged(game_key)
                &&& *final(p2_stats) == old(p2_stats).engaged(game_key)
                &&& final(game)@ == old(game)@.after_start(
                    p1,
                    p2,
                    hand_view(p1_hand@),
                    hand_view(p2_hand@),
                )
            },
            Err(e) => {
                &&& setup_game_error(
                    old(game)@,
                    p1,
                    p2,
                    *old(p1_stats),
                    *old(p2_stats),
                    *leaderboard,
                ) == Some(e)
                &&& *final(game) == *old(game)
                &&& *final(p1_stats) == *old(p1_stats)
                &&& *final(p2_stats) == *old(p2_stats)
            },
        },
{
    if !leaderboard.check_if_created(p1) {
        return Err(CardGameError::UserStatsAccountMissing);
    }
    if p1_stats.check_active_game().is_some() {
        return Err(CardGameError::YouHaveAnActiveGame);
    }
    if !leaderboard.check_if_created(p2) {
        return Err(CardGameError::OpposingStatsAccountMissing);
    }
    if p2_stats.check_active_game().is_some() {
        return Err(CardGameError::OpponentHasAnActiveGame);
    }
    let started = game.start([p1, p2], p1_hand, p2_hand);
    if started.is_ok() {
        p1_stats.set_active_game(game_key);
        p2_stats.set_active_game(game_key);
    }
    started
}

} // verus!
