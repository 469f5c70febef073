//! The laws of the library: what holds of every game, room, session and table,
//! whatever its clients do.

pub mod authority;
pub mod carousel;
pub mod events;
pub mod handshake;
pub mod lookup;
pub mod notation;
pub mod rounds;
pub mod script;
pub mod secrets;
pub mod session;
pub mod soundness;
pub mod statements;
pub mod storage;
pub mod transitions;
pub mod views;
