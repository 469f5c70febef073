//! The game library of The Channel 0 News: a party game in which every player
//! writes a news script for the next player in a ring, and the scripts are then
//! read aloud from a slide carousel.
//!
//! The library holds every rule of the game and of the server around it, free of
//! sockets, tasks and storage. Each function states what it does in its contract,
//! over the mathematical views of the types it works on; the laws of the whole
//! are in `laws`.

pub mod catalog;
pub mod db;
pub mod error;
pub mod game;
pub mod laws;
pub mod protocol;
pub mod registry;
pub mod room;
pub mod routes;
pub mod state;
pub mod text;
pub mod ws;
