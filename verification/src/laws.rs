//! The guarantees of the channel lifecycle, stated once and proved from the
//! operations' contracts.

use vstd::prelude::*;

use crate::engine::{channel_at, close_verdict, refund_verdict, Engine};
use crate::errors::{EngineError, ErrorCode, StorageError};
use crate::states::{channel_index, has_channel, lemma_channel_remove};

verus! {

/// Mutual exclusion, first half: a successful settlement — close or refund —
/// leaves no record at the channel's address. Its hypothesis on `post` is
/// exactly what `close_channel` and `claim_refund` ensure of the engine
/// after a success.
pub proof fn lemma_settled_channel_gone(pre: Engine, post: Engine, owner: Seq<u8>, channel_id: Seq<u8>)
    requires
        pre.wf(),
        has_channel(pre.channels@, owner, channel_id),
        post.channels@ == pre.channels@.remove(channel_index(pre.channels@, owner, channel_id)),
    ensures
        !has_channel(post.channels@, owner, channel_id),
{
    lemma_channel_remove(pre.channels@, owner, channel_id);
}

/// Mutual exclusion, second half: against an engine whose store holds no
/// record at the channel's address, every close and every refund — whatever
/// the secret, amounts, parties, or time — fails at record resolution. With
/// the first half: at most one of close and refund ever succeeds against a
/// given channel, and the second attempt always finds the record absent.
pub proof fn lemma_mutual_exclusion(
    e: Engine,
    owner: Seq<u8>,
    channel_id: Seq<u8>,
    secret: Seq<u8>,
    final_balance: u64,
    close_now: u64,
    claimed_owner: Seq<u8>,
    claimed_counter_party: Seq<u8>,
    claimed_template_creator: Seq<u8>,
    refund_caller: Seq<u8>,
    refund_now: u64,
)
    requires
        !has_channel(e.channels@, owner, channel_id),
    ensures
        close_verdict(
            e,
            owner,
            channel_id,
            secret,
            final_balance,
            close_now,
            claimed_owner,
            claimed_counter_party,
            claimed_template_creator,
        ) == Err::<(), EngineError>(EngineError::Storage(StorageError::NotFound)),
        refund_verdict(e, owner, channel_id, refund_caller, refund_now) == Err::<
            (),
            EngineError,
        >(EngineError::Storage(StorageError::NotFound)),
{
}

/// Window complementarity: for a live channel and any single timestamp, the
/// close window (`now < timelock`) and the refund window (`now >= timelock`)
/// are complementary. A close that passes every other check succeeds exactly
/// in the first window; a refund exactly in the second; no timestamp lets
/// both proceed, and none is rejected by both windows.
pub proof fn lemma_window_complementarity(
    e: Engine,
    owner: Seq<u8>,
    channel_id: Seq<u8>,
    secret: Seq<u8>,
    final_balance: u64,
    now: u64,
    claimed_owner: Seq<u8>,
    claimed_counter_party: Seq<u8>,
    claimed_template_creator: Seq<u8>,
    refund_caller: Seq<u8>,
)
    requires
        has_channel(e.channels@, owner, channel_id),
    ensures
        close_verdict(
            e,
            owner,
            channel_id,
            secret,
            final_balance,
            now,
            claimed_owner,
            claimed_counter_party,
            claimed_template_creator,
        ) is Ok ==> refund_verdict(e, owner, channel_id, refund_caller, now) == Err::<
            (),
            EngineError,
        >(EngineError::Domain(ErrorCode::TimelockNotExpired)),
        refund_verdict(e, owner, channel_id, refund_caller, now) is Ok ==> close_verdict(
            e,
            owner,
            channel_id,
            secret,
            final_balance,
            now,
            claimed_owner,
            claimed_counter_party,
            claimed_template_creator,
        ) == Err::<(), EngineError>(EngineError::Domain(ErrorCode::TimelockExpired)),
        now < channel_at(e, owner, channel_id).timelock || now >= channel_at(
            e,
            owner,
            channel_id,
        ).timelock,
{
}

/// Commitment soundness: a close whose candidate secret does not hash to the
/// stored hashlock fails with `InvalidSecret`, whatever the other inputs.
pub proof fn lemma_commitment_soundness(
    e: Engine,
    owner: Seq<u8>,
    channel_id: Seq<u8>,
    secret: Seq<u8>,
    final_balance: u64,
    now: u64,
    claimed_owner: Seq<u8>,
    claimed_counter_party: Seq<u8>,
    claimed_template_creator: Seq<u8>,
)
    requires
        has_channel(e.channels@, owner, channel_id),
        now < channel_at(e, owner, channel_id).timelock,
        crate::hashing::sha256_of(secret) != channel_at(e, owner, channel_id).hashlock@,
    ensures
        close_verdict(
            e,
            owner,
            channel_id,
            secret,
            final_balance,
            now,
            claimed_owner,
            claimed_counter_party,
            claimed_template_creator,
        ) == Err::<(), EngineError>(EngineError::Domain(ErrorCode::InvalidSecret)),
{
}

/// Authorization: a refund whose caller is not the stored counter-party
/// fails with `WrongChannelCounterParty`, even with a live record and an
/// expired timelock.
pub proof fn lemma_refund_authorization(
    e: Engine,
    owner: Seq<u8>,
    channel_id: Seq<u8>,
    caller: Seq<u8>,
    now: u64,
)
    requires
        has_channel(e.channels@, owner, channel_id),
        now >= channel_at(e, owner, channel_id).timelock,
        caller != channel_at(e, owner, channel_id).counter_party@,
    ensures
        refund_verdict(e, owner, channel_id, caller, now) == Err::<(), EngineError>(
            EngineError::Domain(ErrorCode::WrongChannelCounterParty),
        ),
{
}

} // verus!
