//! Client-side rules of a turn-based space war game: grid geometry,
//! the world model, the state machines of the screens and the requests
//! that the client sends to the game server.

pub mod api;
pub mod game;
pub mod router;
pub mod text;
pub mod app;
pub mod pages;
