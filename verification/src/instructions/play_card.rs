use crate::errors::CardGameError;
use crate::keys::same_key;
use crate::instructions::attack::turn_error;
use crate::state::game::Game;
use anchor_lang::solana_program::pubkey::Pubkey;
use vstd::prelude::*;

verus! {

/// A play of a card asked for by `player`.
pub fn play_card(game: &mut Game, player: Pubkey, pos: u8, card_index: u8) -> (result: Result<
    (),
    CardGameError,
>)
    requires
        old(game)@.is_started(),
        old(game)@.play_card_in_range(pos as int, card_index as int),
    ensures
        match result {
            Ok(()) => {
                &&& turn_error(
                    old(game)@,
                    player,
                    old(game)@.play_card_error(pos as int, card_index as int),
                ) is None
                &&& final(game)@ == old(game)@.after_play_card(pos as int, card_index as int)
            },
            Err(e) => {
                &&& turn_error(
                    old(game)@,
                    player,
                    old(game)@.play_card_error(pos as int, card_index as int),
                ) == Some(e)
                &&& *final(game) == *old(game)
            },
        },
{
    if !same_key(&game.current_player(), &player) {
        return Err(CardGameError::NotPlayersTurn);
    }
    game.play_card(pos, card_index)
}

} // verus!
