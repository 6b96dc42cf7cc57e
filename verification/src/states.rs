//! The records the engine stores, and how they are addressed.
//!
//! Every record lives at an address derived from a fixed tag and a few
//! caller-visible components (the "key"): a template from its template
//! identifier, a channel from its owner and channel identifier, an NPC from
//! its creator and the NPC and game identifiers. The engine keeps at most one
//! record per key; "open" versus "settled" for a channel is encoded purely by
//! record existence.

use vstd::prelude::*;

verus! {

/// A create-once template: its creator receives the royalty of every channel
/// opened against it.
#[derive(Clone, Debug, PartialEq, Eq)]
pub struct Template {
    /// Identity key of whoever created the template.
    pub creator: Vec<u8>,
    /// Display name.
    pub name: Vec<u8>,
    /// Default behavior given to NPCs initialized from this template.
    pub base_behavior: Vec<u8>,
}

/// The bounded append log of an NPC.
#[derive(Clone, Debug, PartialEq, Eq)]
pub struct Memory {
    /// Comma-joined log entries.
    pub data: Vec<u8>,
}

/// The mutable state of an NPC.
#[derive(Clone, Debug, PartialEq, Eq)]
pub struct State {
    /// Identity key of the NPC's creator; only it may update the NPC.
    pub creator: Vec<u8>,
    /// NPC identifier.
    pub npc_id: Vec<u8>,
    /// Game identifier.
    pub game_id: Vec<u8>,
    /// Current dialogue.
    pub dialogue: Vec<u8>,
    /// Current behavior.
    pub behavior: Vec<u8>,
}

/// A hashed-timelock payment channel. Terms are immutable once opened; the
/// record is destroyed by whichever of close or refund succeeds first.
#[derive(Clone, Debug, PartialEq, Eq)]
pub struct PaymentChannel {
    /// Identity key of the funder.
    pub owner: Vec<u8>,
    /// Identity key of the unlock beneficiary and refund recipient.
    pub counter_party: Vec<u8>,
    /// Funds moved into custody at open time. No further deposit or
    /// withdrawal can touch the record before settlement, so this field is
    /// the custody held at settlement time as well.
    pub balance: u64,
    /// 32-byte digest committing to the unlock secret.
    pub hashlock: Vec<u8>,
    /// Absolute deadline: close needs a strictly earlier time, refund the
    /// deadline or later.
    pub timelock: u64,
    /// Identity key of the royalty recipient, captured from the referenced
    /// template at open time and never re-looked-up.
    pub template_creator: Vec<u8>,
    /// Disambiguator of the derived storage address.
    pub bump: u8,
}

/// A template record together with the identifier it is addressed by.
#[derive(Clone, Debug, PartialEq, Eq)]
pub struct TemplateRecord {
    /// Template identifier: the address component.
    pub template_id: Vec<u8>,
    /// The stored template.
    pub template: Template,
}

/// A channel record together with the identifier it is addressed by; the
/// other address component is the stored owner.
#[derive(Clone, Debug, PartialEq, Eq)]
pub struct ChannelRecord {
    /// Channel identifier: chosen by the owner at open time.
    pub channel_id: Vec<u8>,
    /// The stored channel.
    pub channel: PaymentChannel,
}

/// An NPC's memory and state, addressed by creator, NPC identifier and game
/// identifier.
#[derive(Clone, Debug, PartialEq, Eq)]
pub struct NpcRecord {
    /// Identity key the record was initialized under.
    pub creator: Vec<u8>,
    /// NPC identifier.
    pub npc_id: Vec<u8>,
    /// Game identifier.
    pub game_id: Vec<u8>,
    /// The append log.
    pub memory: Memory,
    /// The mutable state.
    pub state: State,
}

/// Address key of a template record.
pub open spec fn template_key(r: TemplateRecord) -> Seq<u8> {
    r.template_id@
}

/// Address key of a channel record: owner identity and channel identifier.
pub open spec fn channel_key(r: ChannelRecord) -> (Seq<u8>, Seq<u8>) {
    (r.channel.owner@, r.channel_id@)
}

/// Address key of an NPC record.
pub open spec fn npc_key(r: NpcRecord) -> (Seq<u8>, Seq<u8>, Seq<u8>) {
    (r.creator@, r.npc_id@, r.game_id@)
}

/// Whether a template with the given identifier exists.
pub open spec fn has_template(s: Seq<TemplateRecord>, template_id: Seq<u8>) -> bool {
    exists|i: int| 0 <= i < s.len() && #[trigger] template_key(s[i]) == template_id
}

/// Index of the template with the given identifier (meaningful only when
/// `has_template` holds).
pub open spec fn template_index(s: Seq<TemplateRecord>, template_id: Seq<u8>) -> int {
    choose|i: int| 0 <= i < s.len() && #[trigger] template_key(s[i]) == template_id
}

/// Whether a channel addressed by the given owner and identifier exists.
pub open spec fn has_channel(s: Seq<ChannelRecord>, owner: Seq<u8>, channel_id: Seq<u8>) -> bool {
    exists|i: int| 0 <= i < s.len() && #[trigger] channel_key(s[i]) == (owner, channel_id)
}

/// Index of the channel addressed by the given owner and identifier
/// (meaningful only when `has_channel` holds).
pub open spec fn channel_index(s: Seq<ChannelRecord>, owner: Seq<u8>, channel_id: Seq<u8>) -> int {
    choose|i: int| 0 <= i < s.len() && #[trigger] channel_key(s[i]) == (owner, channel_id)
}

/// Whether an NPC addressed by the given creator and identifiers exists.
pub open spec fn has_npc(
    s: Seq<NpcRecord>,
    creator: Seq<u8>,
    npc_id: Seq<u8>,
    game_id: Seq<u8>,
) -> bool {
    exists|i: int| 0 <= i < s.len() && #[trigger] npc_key(s[i]) == (creator, npc_id, game_id)
}

/// Index of the NPC addressed by the given creator and identifiers
/// (meaningful only when `has_npc` holds).
pub open spec fn npc_index(
    s: Seq<NpcRecord>,
    creator: Seq<u8>,
    npc_id: Seq<u8>,
    game_id: Seq<u8>,
) -> int {
    choose|i: int| 0 <= i < s.len() && #[trigger] npc_key(s[i]) == (creator, npc_id, game_id)
}

/// No two template records share an identifier.
pub open spec fn templates_unique(s: Seq<TemplateRecord>) -> bool {
    forall|i: int, j: int|
        0 <= i < j < s.len() ==> #[trigger] template_key(s[i]) != #[trigger] template_key(s[j])
}

/// No two channel records share an address.
pub open spec fn channels_unique(s: Seq<ChannelRecord>) -> bool {
    forall|i: int, j: int|
        0 <= i < j < s.len() ==> #[trigger] channel_key(s[i]) != #[trigger] channel_key(s[j])
}

/// No two NPC records share an address.
pub open spec fn npcs_unique(s: Seq<NpcRecord>) -> bool {
    forall|i: int, j: int|
        0 <= i < j < s.len() ==> #[trigger] npc_key(s[i]) != #[trigger] npc_key(s[j])
}

/// In a store of unique keys, any index holding the key is the chosen index.
pub proof fn lemma_channel_index_unique(
    s: Seq<ChannelRecord>,
    owner: Seq<u8>,
    channel_id: Seq<u8>,
    i: int,
)
    requires
        channels_unique(s),
        0 <= i < s.len(),
        channel_key(s[i]) == (owner, channel_id),
    ensures
        has_channel(s, owner, channel_id),
        channel_index(s, owner, channel_id) == i,
{
    assert(has_channel(s, owner, channel_id));
    let j = channel_index(s, owner, channel_id);
    if i != j {
        assert(channel_key(s[i]) == channel_key(s[j]));
        assert(false);
    }
}

/// Removing the record that holds a key leaves no record with that key, and
/// keeps the remaining keys unique.
pub proof fn lemma_channel_remove(s: Seq<ChannelRecord>, owner: Seq<u8>, channel_id: Seq<u8>)
    requires
        channels_unique(s),
        has_channel(s, owner, channel_id),
    ensures
        !has_channel(s.remove(channel_index(s, owner, channel_id)), owner, channel_id),
        channels_unique(s.remove(channel_index(s, owner, channel_id))),
{
    let idx = channel_index(s, owner, channel_id);
    let t = s.remove(idx);
    assert forall|k: int| 0 <= k < t.len() implies #[trigger] channel_key(t[k])
        != (owner, channel_id) by {
        let k0 = if k < idx { k } else { k + 1 };
        assert(t[k] == s[k0]);
        if channel_key(s[k0]) == (owner, channel_id) {
            lemma_channel_index_unique(s, owner, channel_id, k0);
        }
    }
    assert(!has_channel(t, owner, channel_id));
    assert forall|i: int, j: int| 0 <= i < j < t.len() implies #[trigger] channel_key(t[i])
        != #[trigger] channel_key(t[j]) by {
        let i0 = if i < idx { i } else { i + 1 };
        let j0 = if j < idx { j } else { j + 1 };
        assert(t[i] == s[i0] && t[j] == s[j0]);
    }
}

/// Appending a record under a fresh key keeps the keys unique.
pub proof fn lemma_channel_push(s: Seq<ChannelRecord>, r: ChannelRecord)
    requires
        channels_unique(s),
        !has_channel(s, channel_key(r).0, channel_key(r).1),
    ensures
        channels_unique(s.push(r)),
{
    let t = s.push(r);
    assert forall|i: int, j: int| 0 <= i < j < t.len() implies #[trigger] channel_key(t[i])
        != #[trigger] channel_key(t[j]) by {
        if j == s.len() {
            assert(t[i] == s[i] && t[j] == r);
            if channel_key(s[i]) == channel_key(r) {
                assert(channel_key(s[i]) == (channel_key(r).0, channel_key(r).1));
                assert(has_channel(s, channel_key(r).0, channel_key(r).1));
            }
        } else {
            assert(t[i] == s[i] && t[j] == s[j]);
        }
    }
}

/// In a store of unique identifiers, any index holding the identifier is the
/// chosen index.
pub proof fn lemma_template_index_unique(s: Seq<TemplateRecord>, template_id: Seq<u8>, i: int)
    requires
        templates_unique(s),
        0 <= i < s.len(),
        template_key(s[i]) == template_id,
    ensures
        has_template(s, template_id),
        template_index(s, template_id) == i,
{
    assert(has_template(s, template_id));
    let j = template_index(s, template_id);
    if i != j {
        assert(template_key(s[i]) == template_key(s[j]));
        assert(false);
    }
}

/// Appending a template under a fresh identifier keeps identifiers unique.
pub proof fn lemma_template_push(s: Seq<TemplateRecord>, r: TemplateRecord)
    requires
        templates_unique(s),
        !has_template(s, template_key(r)),
    ensures
        templates_unique(s.push(r)),
{
    let t = s.push(r);
    assert forall|i: int, j: int| 0 <= i < j < t.len() implies #[trigger] template_key(t[i])
        != #[trigger] template_key(t[j]) by {
        if j == s.len() {
            assert(t[i] == s[i] && t[j] == r);
            if template_key(s[i]) == template_key(r) {
                assert(has_template(s, template_key(r)));
            }
        } else {
            assert(t[i] == s[i] && t[j] == s[j]);
        }
    }
}

/// In a store of unique keys, any index holding the key is the chosen index.
pub proof fn lemma_npc_index_unique(
    s: Seq<NpcRecord>,
    creator: Seq<u8>,
    npc_id: Seq<u8>,
    game_id: Seq<u8>,
    i: int,
)
    requires
        npcs_unique(s),
        0 <= i < s.len(),
        npc_key(s[i]) == (creator, npc_id, game_id),
    ensures
        has_npc(s, creator, npc_id, game_id),
        npc_index(s, creator, npc_id, game_id) == i,
{
    assert(has_npc(s, creator, npc_id, game_id));
    let j = npc_index(s, creator, npc_id, game_id);
    if i != j {
        assert(npc_key(s[i]) == npc_key(s[j]));
        assert(false);
    }
}

/// Appending an NPC under a fresh key keeps the keys unique.
pub proof fn lemma_npc_push(s: Seq<NpcRecord>, r: NpcRecord)
    requires
        npcs_unique(s),
        !has_npc(s, npc_key(r).0, npc_key(r).1, npc_key(r).2),
    ensures
        npcs_unique(s.push(r)),
{
    let t = s.push(r);
    assert forall|i: int, j: int| 0 <= i < j < t.len() implies #[trigger] npc_key(t[i])
        != #[trigger] npc_key(t[j]) by {
        if j == s.len() {
            assert(t[i] == s[i] && t[j] == r);
            if npc_key(s[i]) == npc_key(r) {
                assert(npc_key(s[i]) == (npc_key(r).0, npc_key(r).1, npc_key(r).2));
                assert(has_npc(s, npc_key(r).0, npc_key(r).1, npc_key(r).2));
            }
        } else {
            assert(t[i] == s[i] && t[j] == s[j]);
        }
    }
}

/// Replacing a record by one with the same key keeps the keys unique, and
/// the chosen index of that key unchanged.
pub proof fn lemma_npc_update(s: Seq<NpcRecord>, i: int, r: NpcRecord)
    requires
        npcs_unique(s),
        0 <= i < s.len(),
        npc_key(r) == npc_key(s[i]),
    ensures
        npcs_unique(s.update(i, r)),
{
    let t = s.update(i, r);
    assert forall|a: int, b: int| 0 <= a < b < t.len() implies #[trigger] npc_key(t[a])
        != #[trigger] npc_key(t[b]) by {
        assert(npc_key(t[a]) == npc_key(s[a]) && npc_key(t[b]) == npc_key(s[b]));
    }
}

} // verus!
