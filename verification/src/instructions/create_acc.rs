use crate::errors::CardGameError;
use crate::state::leaderboard::Leaderboard;
use anchor_lang::solana_program::pubkey::Pubkey;
use crate::state::user::UserStats;
use vstd::prelude::*;

verus! {

/// Longest name of a participant, in bytes.
pub const MAX_NAME_BYTES: usize = 20;

/// The length of a name in bytes of its UTF-8 form.
pub open spec fn name_bytes(name: Seq<char>) -> nat {
    vstd::utf8::encode_utf8(name).len()
}

/// Why a registration is refused, or `None`.
pub open spec fn create_user_stats_error(
    leaderboard: Leaderboard,
    user: Pubkey,
    name: Seq<char>,
) -> Option<CardGameError> {
    if name_bytes(name) > MAX_NAME_BYTES {
        Some(CardGameError::NameTooLong)
    } else if leaderboard.has(user) {
        Some(CardGameError::UserAlreadyExists)
    } else {
        None
    }
}

/// Registers a participant: names the ranking record, sets its score to 0
/// and puts the participant at the end of the list.
pub fn create_user_stats(
    user_stats: &mut UserStats,
    leaderboard: &mut Leaderboard,
    user: Pubkey,
    name: String,
    bump: u8,
) -> (result: Result<(), CardGameError>)
    ensures
        match result {
            Ok(()) => {
                &&& create_user_stats_error(*old(leaderboard), user, name@) is None
                &&& final(user_stats).score == 0
                &&& final(user_stats).name == name
                &&& final(user_stats).bump == bump
                &&& final(user_stats).active_game == old(user_stats).active_game
                &&& final(leaderboard).players@ == old(leaderboard).players@.push(user)
                &&& final(leaderboard).bump == old(leaderboard).bump
            },
            Err(e) => {
                &&& create_user_stats_error(*old(leaderboard), user, name@) == Some(e)
                &&& *final(user_stats) == *old(user_stats)
                &&& *final(leaderboard) == *old(leaderboard)
            },
        },
{
    if name.as_str().as_bytes().len() > MAX_NAME_BYTES {
        return Err(CardGameError::NameTooLong);
    }
    if leaderboard.check_if_created(user) {
        return Err(CardGameError::UserAlreadyExists);
    }
    user_stats.initialize(name, bump);
    leaderboard.add_new_player(user)
}

} // verus!
