use vstd::prelude::*;

verus! {

/// Every reason for which an action on a match or on a player's record is
/// refused. A refused action leaves all records as they were.
#[derive(Clone, Copy, Debug, PartialEq, Eq, Structural)]
pub enum CardGameError {
    TileOutOfBounds,
    PositionOutOfBounds,
    EmptyBoardSpace,
    TileAlreadySet,
    GameAlreadyOver,
    NotPlayersTurn,
    GameAlreadyStarted,
    EnemyBoardPositionEmpty,
    AllyBoardPositionEmpty,
    CannotAttackOwnHero,
    UnitIsNotReady,
    InsufficientMana,
    ScoreTooLow,
    ScoreTooHigh,
    UserAlreadyExists,
    UserStatsAccountMissing,
    OpposingStatsAccountMissing,
    YouHaveAnActiveGame,
    OpponentHasAnActiveGame,
    NameTooLong,
    GameStillActive,
    MismatchPlayerKeys,
    CardIndexOutOfBounds,
}

} // verus!
