use anchor_lang::solana_program::pubkey::Pubkey;
use vstd::prelude::*;

verus! {

/// Highest score from which a win still adds its points.
pub const SCORE_CEILING: u16 = 65530;

/// The points that a win adds and a loss takes.
pub const SCORE_STEP: u16 = 5;

/// A participant's ranking record: the score, the name, and the match the
/// participant is engaged in, if any.
#[derive(Clone, Debug, PartialEq, Eq)]
pub struct UserStats {
    pub score: u16,
    pub name: String,
    pub bump: u8,
    pub active_game: Option<Pubkey>,
}

impl UserStats {
    /// The record with the score after a win.
    pub open spec fn increased(self) -> UserStats {
        UserStats {
            score: if self.score <= SCORE_CEILING {
                (self.score + SCORE_STEP) as u16
            } else {
                self.score
            },
            ..self
        }
    }

    /// The record with the score after a loss.
    pub open spec fn decreased(self) -> UserStats {
        UserStats {
            score: if self.score >= SCORE_STEP {
                (self.score - SCORE_STEP) as u16
            } else {
                self.score
            },
            ..self
        }
    }

    /// The record with no match marked.
    pub open spec fn cleared(self) -> UserStats {
        UserStats { active_game: None, ..self }
    }

    /// The record with the given match marked.
    pub open spec fn engaged(self, game: Pubkey) -> UserStats {
        UserStats { active_game: Some(game), ..self }
    }

    /// An empty record: no score, no name, no match.
    pub fn new() -> (stats: UserStats)
        ensures
            stats.score == 0,
            stats.name@.len() == 0,
            stats.bump == 0,
            stats.active_game is None,
    {
        UserStats { score: 0, name: String::new(), bump: 0, active_game: None }
    }

    pub fn check_active_game(&self) -> (game: Option<Pubkey>)
        ensures
            game == self.active_game,
    {
        self.active_game
    }

    pub fn set_active_game(&mut self, game_pk: Pubkey)
        ensures
            *final(self) == old(self).engaged(game_pk),
    {
        self.active_game = Some(game_pk);
    }

    pub fn clear_active(&mut self)
        ensures
            *final(self) == old(self).cleared(),
    {
        self.active_game = None;
    }

    /// Names the record and sets its score to 0. The marked match stays.
    pub fn initialize(&mut self, name: String, bump: u8)
        ensures
            final(self).score == 0,
            final(self).name == name,
            final(self).bump == bump,
            final(self).active_game == old(self).active_game,
    {
        self.score = 0;
        self.name = name;
        self.bump = bump;
    }

    /// Adds the points of a win, unless the score would pass its ceiling.
    pub fn increase_score(&mut self)
        ensures
            *final(self) == old(self).increased(),
            final(self).score >= old(self).score,
    {
        if self.score <= SCORE_CEILING {
            self.score = self.score + SCORE_STEP;
        }
    }

    /// Takes the points of a loss, unless the score would fall below 0.
    pub fn decrease_score(&mut self)
        ensures
            *final(self) == old(self).decreased(),
            final(self).score <= old(self).score,
    {
        if self.score >= SCORE_STEP {
            self.score = self.score - SCORE_STEP;
        }
    }
}

} // verus!
