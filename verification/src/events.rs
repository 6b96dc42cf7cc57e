//! Facts announced by successful transitions.
//!
//! Every state transition of the engine returns one of these structured
//! facts so that an embedder may forward it to off-chain observers. Emission
//! is best-effort notification, never a source of truth: every field is also
//! pinned by the contract of the operation that produced it.

use vstd::prelude::*;

verus! {

/// A template was created.
#[derive(Clone, Debug, PartialEq, Eq)]
pub struct TemplateCreated {
    /// Identifier the template is addressed by.
    pub template_id: Vec<u8>,
    /// The caller, now the template's creator.
    pub creator: Vec<u8>,
    /// Display name.
    pub name: Vec<u8>,
    /// Default behavior for NPCs initialized from the template.
    pub base_behavior: Vec<u8>,
}

/// An NPC was initialized from a template.
#[derive(Clone, Debug, PartialEq, Eq)]
pub struct NpcInitialized {
    /// NPC identifier.
    pub npc_id: Vec<u8>,
    /// Game identifier.
    pub game_id: Vec<u8>,
    /// The caller, now the NPC's creator.
    pub creator: Vec<u8>,
    /// Identifier of the template the NPC was seeded from.
    pub template_id: Vec<u8>,
}

/// An NPC's state and memory were updated by its creator.
#[derive(Clone, Debug, PartialEq, Eq)]
pub struct NpcUpdated {
    /// NPC identifier.
    pub npc_id: Vec<u8>,
    /// Game identifier.
    pub game_id: Vec<u8>,
    /// The creator that performed the update.
    pub creator: Vec<u8>,
    /// Action appended to the memory log.
    pub action: Vec<u8>,
    /// New dialogue.
    pub dialogue: Vec<u8>,
    /// New behavior.
    pub behavior: Vec<u8>,
}

/// A payment channel was opened and funded.
#[derive(Clone, Debug, PartialEq, Eq)]
pub struct ChannelOpened {
    /// Channel identifier.
    pub channel_id: Vec<u8>,
    /// The funder.
    pub owner: Vec<u8>,
    /// Funds moved into custody.
    pub amount: u64,
    /// Digest committing to the unlock secret.
    pub hashlock: Vec<u8>,
    /// Absolute settlement deadline.
    pub timelock: u64,
    /// Royalty recipient captured from the referenced template.
    pub template_creator: Vec<u8>,
}

/// A channel was settled cooperatively; the record is destroyed.
#[derive(Clone, Debug, PartialEq, Eq)]
pub struct ChannelClosed {
    /// Channel identifier.
    pub channel_id: Vec<u8>,
    /// The funder, recipient of the fee.
    pub owner: Vec<u8>,
    /// Disbursement to the owner.
    pub fee: u64,
    /// Disbursement to the template creator.
    pub royalty: u64,
    /// Disbursement to the counter-party.
    pub refund: u64,
    /// Recipient of the royalty.
    pub template_creator: Vec<u8>,
}

/// A channel's custody was refunded after the deadline; the record is
/// destroyed.
#[derive(Clone, Debug, PartialEq, Eq)]
pub struct RefundClaimed {
    /// Channel identifier.
    pub channel_id: Vec<u8>,
    /// The funder of the refunded channel.
    pub owner: Vec<u8>,
    /// Custody transferred to the counter-party.
    pub amount: u64,
}

} // verus!
