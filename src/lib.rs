//! Server-side combat: weapon state, holsters, input decoding, the per-tick
//! shooter system and the messages it queues for connected clients.

pub mod holster;
pub mod input;
pub mod laws;
pub mod network;
pub mod registry;
pub mod shooter;
pub mod weapon;
