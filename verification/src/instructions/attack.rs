use crate::errors::CardGameError;
use crate::keys::same_key;
use crate::state::game::Game;
use crate::state::model::{GameView};
use anchor_lang::solana_program::pubkey::Pubkey;
use vstd::prelude::*;

verus! {

/// What a request of `player` meets before the action itself is looked at:
/// only the player whose turn it is may act. `action` is the action's own
/// verdict.
pub open spec fn turn_error(game: GameView, player: Pubkey, action: Option<CardGameError>) -> Option<
    CardGameError,
> {
    if game.current_player() != player {
        Some(CardGameError::NotPlayersTurn)
    } else {
        action
    }
}

/// An attack asked for by `player`.
pub fn attack(game: &mut Game, player: Pubkey, bot_pos: u8, top_pos: u8) -> (result: Result<
    (),
    CardGameError,
>)
    requires
        old(game)@.is_started(),
        old(game)@.attack_in_range(bot_pos as int, top_pos as int),
    ensures
        match result {
            Ok(()) => {
                &&& turn_error(
                    old(game)@,
                    player,
                    old(game)@.attack_error(bot_pos as int, top_pos as int),
                ) is None
                &&& final(game)@ == old(game)@.after_attack(bot_pos as int, top_pos as int)
            },
            Err(e) => {
                &&& turn_error(
                    old(game)@,
                    player,
                    old(game)@.attack_error(bot_pos as int, top_pos as int),
                ) == Some(e)
                &&& *final(game) == *old(game)
            },
        },
{
    if !same_key(&game.current_player(), &player) {
        return Err(CardGameError::NotPlayersTurn);
    }
    game.attack(bot_pos, top_pos)
}

} // verus!
