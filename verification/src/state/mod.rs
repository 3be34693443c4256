pub mod game;
pub mod laws;
pub mod leaderboard;
pub mod model;
pub mod user;
