pub mod attack;
pub mod concede;
pub mod create_acc;
pub mod end_turn;
pub mod init_leaderboard;
pub mod play_card;
pub mod set_scores;
pub mod setup_game;
