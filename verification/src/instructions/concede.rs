use crate::errors::CardGameError;
use crate::state::game::Game;
use anchor_lang::solana_program::pubkey::Pubkey;
use crate::state::user::UserStats;
use vstd::prelude::*;

verus! {

/// The participant `p1` gives the match up: `p1` takes the loss, `p2` the
/// win, and both are free again. Refused when the pair is not the pair of
/// participants.
pub fn concede(
    game: &Game,
    p1: Pubkey,
    p2: Pubkey,
    p1_stats: &mut UserStats,
    p2_stats: &mut UserStats,
) -> (result: Result<(), CardGameError>)
    ensures
        match result {
            Ok(()) => {
                &&& game@.match_participants(p1, p2)
                &&& *final(p1_stats) == old(p1_stats).decreased().cleared()
                &&& *final(p2_stats) == old(p2_stats).increased().cleared()
            },
            Err(e) => {
                &&& e == CardGameError::MismatchPlayerKeys
                &&& !game@.match_participants(p1, p2)
                &&& *final(p1_stats) == *old(p1_stats)
                &&& *final(p2_stats) == *old(p2_stats)
            },
        },
{
    if game.match_pubkeys([p1, p2]) {
        p1_stats.decrease_score();
        p1_stats.clear_active();
        p2_stats.increase_score();
        p2_stats.clear_active();
        Ok(())
    } else {
        Err(CardGameError::MismatchPlayerKeys)
    }
}

} // verus!
