pub mod game_over;
pub mod lobby;
pub mod splash;
pub mod start;
