use crate::errors::CardGameError;
use crate::keys::same_key;
use crate::instructions::attack::turn_error;
use crate::state::game::Game;
use anchor_lang::solana_program::pubkey::Pubkey;
use vstd::prelude::*;

verus! {

/// The end of the turn asked for by `player`.
pub fn end_turn(game: &mut Game, player: Pubkey) -> (result: Result<(), CardGameError>)
    requires
        old(game)@.is_started(),
        old(game)@.end_turn_in_range(),
    ensures
        match result {
            Ok(()) => {
                &&& turn_error(old(game)@, player, old(game)@.end_turn_error()) is None
                &&& final(game)@ == old(game)@.after_end_turn()
            },
            Err(e) => {
                &&& turn_error(old(game)@, player, old(game)@.end_turn_error()) == Some(e)
                &&& *final(game) == *old(game)
            },
        },
{
    if !same_key(&game.current_player(), &player) {
        return Err(CardGameError::NotPlayersTurn);
    }
    game.end_turn()
}

} // verus!
