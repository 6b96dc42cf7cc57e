//! A hashed-timelock payment channel (HTLC) engine bound to a template
//! registry, plus a small templated-NPC record store.
//!
//! A channel custodies funds committed at open time. It is settled exactly
//! once: either cooperatively, by revealing the preimage of the stored
//! hashlock before the timelock deadline (a royalty share of the settled
//! amount goes to the template creator), or by the counter-party claiming a
//! refund of the full custody once the deadline has passed. Settlement
//! destroys the record, so no channel can be settled twice.

pub mod bytes;
pub mod digits;
pub mod engine;
pub mod errors;
pub mod events;
pub mod hashing;
pub mod laws;
pub mod npc;
pub mod settlement;
pub mod states;
