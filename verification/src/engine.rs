//! The payment-channel engine: one indivisible transition per call.
//!
//! The engine owns every record. Each operation validates all of its
//! preconditions before it mutates anything: on any error the engine is left
//! exactly as it was, and the error says which check failed first. The order
//! of the checks is fixed and the `*_verdict` spec functions restate it, so
//! every contract says not only when an operation succeeds but which error
//! each rejected input produces.
//!
//! Fund movement: `open_channel` records the custody moved in by its caller;
//! `close_channel` and `claim_refund` destroy the record and hand back the
//! disbursements to perform (in the returned fact), so that the embedder's
//! transfer primitive can carry them out. A settled channel's record is gone,
//! and a second settlement of the same address fails at record resolution.

use vstd::prelude::*;

use crate::bytes::{bytes_eq, dup};
use crate::errors::{EngineError, ErrorCode, StorageError};
use crate::events::{ChannelClosed, ChannelOpened, RefundClaimed, TemplateCreated};
use crate::hashing::{sha256, sha256_of};
use crate::settlement::{fee_of, refund_of, royalty_of, settle};
use crate::states::{
    channel_index, channel_key, channels_unique, has_channel, has_template,
    lemma_channel_index_unique, lemma_channel_push, lemma_channel_remove,
    lemma_template_index_unique, lemma_template_push, npcs_unique, template_index, template_key,
    templates_unique, ChannelRecord, NpcRecord, PaymentChannel, Template, TemplateRecord,
};

verus! {

/// Every stored channel holds custody and a 32-byte hashlock.
pub open spec fn channels_wf(s: Seq<ChannelRecord>) -> bool {
    forall|i: int|
        0 <= i < s.len() ==> ((#[trigger] s[i]).channel.balance > 0
            && s[i].channel.hashlock@.len() == 32)
}

/// The record stores of the engine.
pub struct Engine {
    /// Create-once templates, addressed by template identifier.
    pub templates: Vec<TemplateRecord>,
    /// Live payment channels, addressed by owner and channel identifier.
    pub channels: Vec<ChannelRecord>,
    /// NPC records, addressed by creator, NPC identifier and game identifier.
    pub npcs: Vec<NpcRecord>,
}

impl Engine {
    /// Every address holds at most one record, and every channel custodies
    /// funds behind a 32-byte commitment. Established by [`Engine::new`] and
    /// preserved by every operation.
    pub open spec fn wf(self) -> bool {
        &&& templates_unique(self.templates@)
        &&& channels_unique(self.channels@)
        &&& npcs_unique(self.npcs@)
        &&& channels_wf(self.channels@)
    }

    /// An engine with no records.
    pub fn new() -> (e: Engine)
        ensures
            e.wf(),
            e.templates@.len() == 0,
            e.channels@.len() == 0,
            e.npcs@.len() == 0,
    {
        Engine { templates: Vec::new(), channels: Vec::new(), npcs: Vec::new() }
    }

    /// Index of the channel addressed by `(owner, channel_id)`, if any.
    fn find_channel(&self, owner: &Vec<u8>, channel_id: &Vec<u8>) -> (r: Option<usize>)
        ensures
            match r {
                Some(i) => i < self.channels@.len() && channel_key(self.channels@[i as int])
                    == (owner@, channel_id@),
                None => !has_channel(self.channels@, owner@, channel_id@),
            },
    {
        let mut i: usize = 0;
        while i < self.channels.len()
            invariant
                i <= self.channels@.len(),
                forall|k: int|
                    0 <= k < i ==> #[trigger] channel_key(self.channels@[k]) != (
                    owner@,
                    channel_id@,
                    ),
            decreases self.channels@.len() - i,
        {
            let rec = &self.channels[i];
            if bytes_eq(&rec.channel.owner, owner) && bytes_eq(&rec.channel_id, channel_id) {
                return Some(i);
            }
            i += 1;
        }
        None
    }

    /// Index of the template addressed by `template_id`, if any.
    pub(crate) fn find_template(&self, template_id: &Vec<u8>) -> (r: Option<usize>)
        ensures
            match r {
                Some(i) => i < self.templates@.len() && template_key(self.templates@[i as int])
                    == template_id@,
                None => !has_template(self.templates@, template_id@),
            },
    {
        let mut i: usize = 0;
        while i < self.templates.len()
            invariant
                i <= self.templates@.len(),
                forall|k: int|
                    0 <= k < i ==> #[trigger] template_key(self.templates@[k]) != template_id@,
            decreases self.templates@.len() - i,
        {
            if bytes_eq(&self.templates[i].template_id, template_id) {
                return Some(i);
            }
            i += 1;
        }
        None
    }

    /// The channel addressed by `(owner, channel_id)`, if it still exists.
    pub fn get_channel(&self, owner: &Vec<u8>, channel_id: &Vec<u8>) -> (r: Option<
        &PaymentChannel,
    >)
        requires
            self.wf(),
        ensures
            match r {
                Some(c) => has_channel(self.channels@, owner@, channel_id@) && *c
                    == self.channels@[channel_index(self.channels@, owner@, channel_id@)].channel,
                None => !has_channel(self.channels@, owner@, channel_id@),
            },
    {
        match self.find_channel(owner, channel_id) {
            Some(i) => {
                proof {
                    lemma_channel_index_unique(self.channels@, owner@, channel_id@, i as int);
                }
                Some(&self.channels[i].channel)
            },
            None => None,
        }
    }

    /// The template addressed by `template_id`, if it exists.
    pub fn get_template(&self, template_id: &Vec<u8>) -> (r: Option<&Template>)
        requires
            self.wf(),
        ensures
            match r {
                Some(t) => has_template(self.templates@, template_id@) && *t
                    == self.templates@[template_index(self.templates@, template_id@)].template,
                None => !has_template(self.templates@, template_id@),
            },
    {
        match self.find_template(template_id) {
            Some(i) => {
                proof {
                    lemma_template_index_unique(self.templates@, template_id@, i as int);
                }
                Some(&self.templates[i].template)
            },
            None => None,
        }
    }
}

/// The channel stored at `(owner, channel_id)` (meaningful only when
/// `has_channel` holds of the store).
pub open spec fn channel_at(e: Engine, owner: Seq<u8>, channel_id: Seq<u8>) -> PaymentChannel {
    e.channels@[channel_index(e.channels@, owner, channel_id)].channel
}

/// Outcome of `create_template` on a given engine state.
pub open spec fn create_template_verdict(e: Engine, template_id: Seq<u8>) -> Result<
    (),
    EngineError,
> {
    if has_template(e.templates@, template_id) {
        Err(EngineError::Storage(StorageError::AlreadyExists))
    } else {
        Ok(())
    }
}

/// Outcome of `open_channel` on a given engine state: the channel address
/// must be fresh, the template must exist, and the custody moved in must not
/// be empty (an explicitly rejected boundary case).
pub open spec fn open_verdict(
    e: Engine,
    caller: Seq<u8>,
    channel_id: Seq<u8>,
    amount: u64,
    template_id: Seq<u8>,
) -> Result<(), EngineError> {
    if has_channel(e.channels@, caller, channel_id) {
        Err(EngineError::Storage(StorageError::AlreadyExists))
    } else if !has_template(e.templates@, template_id) {
        Err(EngineError::Storage(StorageError::NotFound))
    } else if amount == 0 {
        Err(EngineError::Domain(ErrorCode::InsufficientFunds))
    } else {
        Ok(())
    }
}

/// Outcome of `close_channel` on a given engine state, with the checks in
/// the order the engine makes them: record resolution, unlock window,
/// commitment, the three payout destinations, and custody sufficiency.
pub open spec fn close_verdict(
    e: Engine,
    owner: Seq<u8>,
    channel_id: Seq<u8>,
    secret: Seq<u8>,
    final_balance: u64,
    now: u64,
    claimed_owner: Seq<u8>,
    claimed_counter_party: Seq<u8>,
    claimed_template_creator: Seq<u8>,
) -> Result<(), EngineError> {
    if !has_channel(e.channels@, owner, channel_id) {
        Err(EngineError::Storage(StorageError::NotFound))
    } else {
        let c = e.channels@[channel_index(e.channels@, owner, channel_id)].channel;
        if now >= c.timelock {
            Err(EngineError::Domain(ErrorCode::TimelockExpired))
        } else if sha256_of(secret) != c.hashlock@ {
            Err(EngineError::Domain(ErrorCode::InvalidSecret))
        } else if claimed_owner != c.owner@ {
            Err(EngineError::Domain(ErrorCode::WrongChannelOwner))
        } else if claimed_counter_party != c.counter_party@ {
            Err(EngineError::Domain(ErrorCode::WrongChannelCounterParty))
        } else if claimed_template_creator != c.template_creator@ {
            Err(EngineError::Domain(ErrorCode::WrongTemplateCreator))
        } else if final_balance > c.balance {
            Err(EngineError::Domain(ErrorCode::InsufficientFunds))
        } else {
            Ok(())
        }
    }
}

/// Outcome of `claim_refund` on a given engine state: record resolution,
/// expired window, caller identity, and non-empty custody (the last can
/// never fail on a well-formed engine).
pub open spec fn refund_verdict(
    e: Engine,
    owner: Seq<u8>,
    channel_id: Seq<u8>,
    caller: Seq<u8>,
    now: u64,
) -> Result<(), EngineError> {
    if !has_channel(e.channels@, owner, channel_id) {
        Err(EngineError::Storage(StorageError::NotFound))
    } else {
        let c = e.channels@[channel_index(e.channels@, owner, channel_id)].channel;
        if now < c.timelock {
            Err(EngineError::Domain(ErrorCode::TimelockNotExpired))
        } else if caller != c.counter_party@ {
            Err(EngineError::Domain(ErrorCode::WrongChannelCounterParty))
        } else if c.balance == 0 {
            Err(EngineError::Domain(ErrorCode::InsufficientFunds))
        } else {
            Ok(())
        }
    }
}

/// The channel record `open_channel` creates from its inputs.
pub open spec fn is_opened_record(
    r: ChannelRecord,
    caller: Seq<u8>,
    channel_id: Seq<u8>,
    counter_party: Seq<u8>,
    amount: u64,
    hashlock: Seq<u8>,
    timelock: u64,
    template_creator: Seq<u8>,
    bump: u8,
) -> bool {
    &&& r.channel_id@ == channel_id
    &&& r.channel.owner@ == caller
    &&& r.channel.counter_party@ == counter_party
    &&& r.channel.balance == amount
    &&& r.channel.hashlock@ == hashlock
    &&& r.channel.timelock == timelock
    &&& r.channel.template_creator@ == template_creator
    &&& r.channel.bump == bump
}

impl Engine {
    /// Creates a template. The caller becomes its creator; the record is
    /// immutable afterwards. Fails only when the identifier is taken.
    pub fn create_template(
        &mut self,
        caller: Vec<u8>,
        template_id: Vec<u8>,
        name: Vec<u8>,
        base_behavior: Vec<u8>,
    ) -> (r: Result<TemplateCreated, EngineError>)
        requires
            old(self).wf(),
        ensures
            final(self).wf(),
            (r is Ok) == (create_template_verdict(*old(self), template_id@) is Ok),
            r is Err ==> *final(self) == *old(self) && r->Err_0 == create_template_verdict(
                *old(self),
                template_id@,
            )->Err_0,
            r is Ok ==> {
                &&& final(self).templates@.len() == old(self).templates@.len() + 1
                &&& final(self).templates@.drop_last() == old(self).templates@
                &&& template_key(final(self).templates@.last()) == template_id@
                &&& final(self).templates@.last().template.creator@ == caller@
                &&& final(self).templates@.last().template.name@ == name@
                &&& final(self).templates@.last().template.base_behavior@ == base_behavior@
                &&& final(self).channels == old(self).channels
                &&& final(self).npcs == old(self).npcs
            },
            r is Ok ==> {
                let ev = r->Ok_0;
                &&& ev.template_id@ == template_id@
                &&& ev.creator@ == caller@
                &&& ev.name@ == name@
                &&& ev.base_behavior@ == base_behavior@
            },
    {
        if self.find_template(&template_id).is_some() {
            return Err(EngineError::Storage(StorageError::AlreadyExists));
        }
        let ev = TemplateCreated {
            template_id: dup(&template_id),
            creator: dup(&caller),
            name: dup(&name),
            base_behavior: dup(&base_behavior),
        };
        let rec = TemplateRecord {
            template_id,
            template: Template { creator: caller, name, base_behavior },
        };
        proof {
            lemma_template_push(self.templates@, rec);
        }
        self.templates.push(rec);
        proof {
            assert(self.templates@.drop_last() =~= old(self).templates@);
        }
        Ok(ev)
    }

    /// Opens a channel: creates the record at the fresh address
    /// `(caller, channel_id)`, captures the royalty recipient from the
    /// referenced template, and takes the `amount` its caller moved into
    /// custody. Zero-amount opens are rejected, so every live channel
    /// custodies funds.
    pub fn open_channel(
        &mut self,
        caller: Vec<u8>,
        channel_id: Vec<u8>,
        counter_party: Vec<u8>,
        amount: u64,
        hashlock: Vec<u8>,
        timelock: u64,
        template_id: &Vec<u8>,
        bump: u8,
    ) -> (r: Result<ChannelOpened, EngineError>)
        requires
            old(self).wf(),
            hashlock@.len() == 32,
        ensures
            final(self).wf(),
            (r is Ok) == (open_verdict(*old(self), caller@, channel_id@, amount, template_id@)
                is Ok),
            r is Err ==> *final(self) == *old(self) && r->Err_0 == open_verdict(
                *old(self),
                caller@,
                channel_id@,
                amount,
                template_id@,
            )->Err_0,
            r is Ok ==> {
                let tc = old(self).templates@[template_index(
                    old(self).templates@,
                    template_id@,
                )].template.creator@;
                &&& final(self).channels@.len() == old(self).channels@.len() + 1
                &&& final(self).channels@.drop_last() == old(self).channels@
                &&& is_opened_record(
                    final(self).channels@.last(),
                    caller@,
                    channel_id@,
                    counter_party@,
                    amount,
                    hashlock@,
                    timelock,
                    tc,
                    bump,
                )
                &&& final(self).templates == old(self).templates
                &&& final(self).npcs == old(self).npcs
            },
            r is Ok ==> {
                let ev = r->Ok_0;
                let tc = old(self).templates@[template_index(
                    old(self).templates@,
                    template_id@,
                )].template.creator@;
                &&& ev.channel_id@ == channel_id@
                &&& ev.owner@ == caller@
                &&& ev.amount == amount
                &&& ev.hashlock@ == hashlock@
                &&& ev.timelock == timelock
                &&& ev.template_creator@ == tc
            },
    {
        if self.find_channel(&caller, &channel_id).is_some() {
            return Err(EngineError::Storage(StorageError::AlreadyExists));
        }
        let ti = match self.find_template(template_id) {
            None => {
                return Err(EngineError::Storage(StorageError::NotFound));
            },
            Some(ti) => ti,
        };
        proof {
            lemma_template_index_unique(self.templates@, template_id@, ti as int);
        }
        if amount == 0 {
            return Err(EngineError::Domain(ErrorCode::InsufficientFunds));
        }
        let template_creator = dup(&self.templates[ti].template.creator);
        let ev = ChannelOpened {
            channel_id: dup(&channel_id),
            owner: dup(&caller),
            amount,
            hashlock: dup(&hashlock),
            timelock,
            template_creator: dup(&template_creator),
        };
        let rec = ChannelRecord {
            channel_id,
            channel: PaymentChannel {
                owner: caller,
                counter_party,
                balance: amount,
                hashlock,
                timelock,
                template_creator,
                bump,
            },
        };
        proof {
            lemma_channel_push(self.channels@, rec);
        }
        self.channels.push(rec);
        proof {
            assert(self.channels@.drop_last() =~= old(self).channels@);
        }
        Ok(ev)
    }

    /// Closes a channel cooperatively. The caller reveals the preimage of
    /// the hashlock strictly before the deadline, names the three payout
    /// destinations recorded at open time, and claims `final_balance` of the
    /// custody as settled: a fifth of it (rounded down) goes to the template
    /// creator, the rest of it to the owner, and the unclaimed remainder to
    /// the counter-party. The record is destroyed, so the close can never
    /// happen twice.
    pub fn close_channel(
        &mut self,
        owner: &Vec<u8>,
        channel_id: Vec<u8>,
        secret: &Vec<u8>,
        final_balance: u64,
        now: u64,
        claimed_owner: &Vec<u8>,
        claimed_counter_party: &Vec<u8>,
        claimed_template_creator: &Vec<u8>,
    ) -> (r: Result<ChannelClosed, EngineError>)
        requires
            old(self).wf(),
        ensures
            final(self).wf(),
            (r is Ok) == (close_verdict(
                *old(self),
                owner@,
                channel_id@,
                secret@,
                final_balance,
                now,
                claimed_owner@,
                claimed_counter_party@,
                claimed_template_creator@,
            ) is Ok),
            r is Err ==> *final(self) == *old(self) && r->Err_0 == close_verdict(
                *old(self),
                owner@,
                channel_id@,
                secret@,
                final_balance,
                now,
                claimed_owner@,
                claimed_counter_party@,
                claimed_template_creator@,
            )->Err_0,
            r is Ok ==> {
                let idx = channel_index(old(self).channels@, owner@, channel_id@);
                let c = old(self).channels@[idx].channel;
                let ev = r->Ok_0;
                &&& final(self).channels@ == old(self).channels@.remove(idx)
                &&& final(self).templates == old(self).templates
                &&& final(self).npcs == old(self).npcs
                &&& ev.channel_id@ == channel_id@
                &&& ev.owner@ == c.owner@
                &&& ev.template_creator@ == c.template_creator@
                &&& ev.royalty == royalty_of(final_balance)
                &&& ev.fee == fee_of(final_balance)
                &&& ev.refund == refund_of(c.balance, final_balance)
                &&& ev.royalty + ev.fee + ev.refund == c.balance
            },
    {
        let i = match self.find_channel(owner, &channel_id) {
            None => {
                return Err(EngineError::Storage(StorageError::NotFound));
            },
            Some(i) => i,
        };
        proof {
            lemma_channel_index_unique(self.channels@, owner@, channel_id@, i as int);
        }
        let timelock = self.channels[i].channel.timelock;
        if now >= timelock {
            return Err(EngineError::Domain(ErrorCode::TimelockExpired));
        }
        let digest = sha256(secret);
        if !bytes_eq(&digest, &self.channels[i].channel.hashlock) {
            return Err(EngineError::Domain(ErrorCode::InvalidSecret));
        }
        if !bytes_eq(claimed_owner, &self.channels[i].channel.owner) {
            return Err(EngineError::Domain(ErrorCode::WrongChannelOwner));
        }
        if !bytes_eq(claimed_counter_party, &self.channels[i].channel.counter_party) {
            return Err(EngineError::Domain(ErrorCode::WrongChannelCounterParty));
        }
        if !bytes_eq(claimed_template_creator, &self.channels[i].channel.template_creator) {
            return Err(EngineError::Domain(ErrorCode::WrongTemplateCreator));
        }
        let custody = self.channels[i].channel.balance;
        if final_balance > custody {
            return Err(EngineError::Domain(ErrorCode::InsufficientFunds));
        }
        let s = settle(custody, final_balance);
        proof {
            lemma_channel_remove(self.channels@, owner@, channel_id@);
        }
        let rec = self.channels.remove(i);
        proof {
            assert forall|k: int| 0 <= k < self.channels@.len() implies ((
            #[trigger] self.channels@[k]).channel.balance > 0
                && self.channels@[k].channel.hashlock@.len() == 32) by {
                let k0 = if k < i as int {
                    k
                } else {
                    k + 1
                };
                assert(self.channels@[k] == old(self).channels@[k0]);
            }
        }
        Ok(
            ChannelClosed {
                channel_id,
                owner: rec.channel.owner,
                fee: s.fee,
                royalty: s.royalty,
                refund: s.refund_balance,
                template_creator: rec.channel.template_creator,
            },
        )
    }

    /// Claims the refund of an expired channel. Once the deadline has
    /// passed, the stored counter-party — and nobody else — receives the
    /// entire custody back; the record is destroyed, so a second claim, or a
    /// close after a refund, fails at record resolution.
    pub fn claim_refund(
        &mut self,
        owner: &Vec<u8>,
        channel_id: Vec<u8>,
        caller: &Vec<u8>,
        now: u64,
    ) -> (r: Result<RefundClaimed, EngineError>)
        requires
            old(self).wf(),
        ensures
            final(self).wf(),
            (r is Ok) == (refund_verdict(*old(self), owner@, channel_id@, caller@, now) is Ok),
            r is Err ==> *final(self) == *old(self) && r->Err_0 == refund_verdict(
                *old(self),
                owner@,
                channel_id@,
                caller@,
                now,
            )->Err_0,
            r is Ok ==> {
                let idx = channel_index(old(self).channels@, owner@, channel_id@);
                let c = old(self).channels@[idx].channel;
                let ev = r->Ok_0;
                &&& final(self).channels@ == old(self).channels@.remove(idx)
                &&& final(self).templates == old(self).templates
                &&& final(self).npcs == old(self).npcs
                &&& ev.channel_id@ == channel_id@
                &&& ev.owner@ == c.owner@
                &&& ev.amount == c.balance
            },
    {
        let i = match self.find_channel(owner, &channel_id) {
            None => {
                return Err(EngineError::Storage(StorageError::NotFound));
            },
            Some(i) => i,
        };
        proof {
            lemma_channel_index_unique(self.channels@, owner@, channel_id@, i as int);
        }
        let timelock = self.channels[i].channel.timelock;
        if now < timelock {
            return Err(EngineError::Domain(ErrorCode::TimelockNotExpired));
        }
        if !bytes_eq(caller, &self.channels[i].channel.counter_party) {
            return Err(EngineError::Domain(ErrorCode::WrongChannelCounterParty));
        }
        if self.channels[i].channel.balance == 0 {
            return Err(EngineError::Domain(ErrorCode::InsufficientFunds));
        }
        proof {
            lemma_channel_remove(self.channels@, owner@, channel_id@);
        }
        let rec = self.channels.remove(i);
        proof {
            assert forall|k: int| 0 <= k < self.channels@.len() implies ((
            #[trigger] self.channels@[k]).channel.balance > 0
                && self.channels@[k].channel.hashlock@.len() == 32) by {
                let k0 = if k < i as int {
                    k
                } else {
                    k + 1
                };
                assert(self.channels@[k] == old(self).channels@[k0]);
            }
        }
        Ok(RefundClaimed { channel_id, owner: rec.channel.owner, amount: rec.channel.balance })
    }
}

} // verus!
