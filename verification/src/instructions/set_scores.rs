use crate::errors::CardGameError;
use crate::keys::same_key;
use crate::state::game::Game;
use crate::state::model::{GameState, GameView};
use anchor_lang::solana_program::pubkey::Pubkey;
use crate::state::user::UserStats;
use vstd::prelude::*;

verus! {

/// Why a match cannot be settled for the pair `(p1, p2)`, or `None`: it
/// must be over, and the pair must be its participants.
pub open spec fn set_score_error(game: GameView, p1: Pubkey, p2: Pubkey) -> Option<
    CardGameError,
> {
    if game.state is Active {
        Some(CardGameError::GameStillActive)
    } else if !game.match_participants(p1, p2) {
        Some(CardGameError::MismatchPlayerKeys)
    } else {
        None
    }
}

/// The first participant's record after settlement: free again, and with
/// the score of a winner if `p1` has won, of a loser if the other has.
pub open spec fn settled_first(state: GameState, p1: Pubkey, stats: UserStats) -> UserStats {
    match state {
        GameState::Won { winner } => if winner == p1 {
            stats.increased().cleared()
        } else {
            stats.decreased().cleared()
        },
        _ => stats.cleared(),
    }
}

/// The second participant's record after settlement.
pub open spec fn settled_second(state: GameState, p1: Pubkey, stats: UserStats) -> UserStats {
    match state {
        GameState::Won { winner } => if winner == p1 {
            stats.decreased().cleared()
        } else {
            stats.increased().cleared()
        },
        _ => stats.cleared(),
    }
}

/// Settles a finished match on the two participants' records.
pub fn set_score(
    game: &Game,
    p1_key: Pubkey,
    p2_key: Pubkey,
    p1_stats: &mut UserStats,
    p2_stats: &mut UserStats,
) -> (result: Result<(), CardGameError>)
    ensures
        match result {
            Ok(()) => {
                &&& set_score_error(game@, p1_key, p2_key) is None
                &&& *final(p1_stats) == settled_first(game.state, p1_key, *old(p1_stats))
                &&& *final(p2_stats) == settled_second(game.state, p1_key, *old(p2_stats))
            },
            Err(e) => {
                &&& set_score_error(game@, p1_key, p2_key) == Some(e)
                &&& *final(p1_stats) == *old(p1_stats)
                &&& *final(p2_stats) == *old(p2_stats)
            },
        },
{
    match game.get_game_state() {
        GameState::Active => Err(CardGameError::GameStillActive),
        GameState::Tie => {
            if game.match_pubkeys([p1_key, p2_key]) {
                p1_stats.clear_active();
                p2_stats.clear_active();
                Ok(())
            } else {
                Err(CardGameError::MismatchPlayerKeys)
            }
        },
        GameState::Won { winner } => {
            if !game.match_pubkeys([p1_key, p2_key]) {
                return Err(CardGameError::MismatchPlayerKeys);
            }
            if same_key(&winner, &p1_key) {
                p1_stats.increase_score();
                p1_stats.clear_active();
                p2_stats.decrease_score();
                p2_stats.clear_active();
            } else {
                p2_stats.increase_score();
                p2_stats.clear_active();
                p1_stats.decrease_score();
                p1_stats.clear_active();
            }
            Ok(())
        },
    }
}

} // verus!
