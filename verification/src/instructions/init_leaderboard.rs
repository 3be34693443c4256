use crate::errors::CardGameError;
use crate::state::leaderboard::Leaderboard;
use vstd::prelude::*;

verus! {

/// Sets up the list of participants, empty.
pub fn init_leaderboard(leaderboard: &mut Leaderboard, acc_bump: u8) -> (result: Result<
    (),
    CardGameError,
>)
    ensures
        result is Ok,
        final(leaderboard).players@.len() == 0,
        final(leaderboard).bump == acc_bump,
{
    leaderboard.initialize(acc_bump)
}

} // verus!
