//! Decision logic of the PeerMe DAO contracts (the Entity template, its
//! ESDT variant, and the Manager), written as verified state transitions.

pub mod bignat;
pub mod dex;
pub mod entity;
pub mod events;
pub mod factory;
pub mod laws;
pub mod manager;
pub mod store;
pub mod types;
pub mod vote;
