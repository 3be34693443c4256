use crate::errors::CardGameError;
use crate::keys::same_key;
use anchor_lang::solana_program::pubkey::Pubkey;
use vstd::prelude::*;

verus! {

/// The list of registered participants, in the order in which they came.
#[derive(Clone, Debug, PartialEq, Eq)]
pub struct Leaderboard {
    pub players: Vec<Pubkey>,
    pub bump: u8,
}

impl Leaderboard {
    /// True when the participant is registered.
    pub open spec fn has(self, player: Pubkey) -> bool {
        self.players@.contains(player)
    }

    /// A list with nobody on it.
    pub fn new() -> (board: Leaderboard)
        ensures
            board.players@.len() == 0,
            board.bump == 0,
    {
        Leaderboard { players: Vec::new(), bump: 0 }
    }

    /// Empties the list.
    pub fn initialize(&mut self, acc_bump: u8) -> (result: Result<(), CardGameError>)
        ensures
            result is Ok,
            final(self).players@.len() == 0,
            final(self).bump == acc_bump,
    {
        self.players = Vec::new();
        self.bump = acc_bump;
        Ok(())
    }

    /// Registers a participant at the end of the list. Refused when the
    /// participant is on it already.
    pub fn add_new_player(&mut self, new_player: Pubkey) -> (result: Result<(), CardGameError>)
        ensures
            match result {
                Ok(()) => {
                    &&& !old(self).has(new_player)
                    &&& final(self).players@ == old(self).players@.push(new_player)
                    &&& final(self).bump == old(self).bump
                },
                Err(e) => {
                    &&& e == CardGameError::UserAlreadyExists
                    &&& old(self).has(new_player)
                    &&& *final(self) == *old(self)
                },
            },
    {
        if self.check_if_created(new_player) {
            return Err(CardGameError::UserAlreadyExists);
        }
        self.players.push(new_player);
        Ok(())
    }

    pub fn check_if_created(&self, player: Pubkey) -> (created: bool)
        ensures
            created == self.has(player),
    {
        let mut i: usize = 0;
        while i < self.players.len()
            invariant
                i <= self.players@.len(),
                forall|j: int| 0 <= j < i ==> self.players@[j] != player,
            decreases self.players@.len() - i,
        {
            if same_key(&self.players[i], &player) {
                return true;
            }
            i += 1;
        }
        false
    }
}

} // verus!
