//! The templated-NPC record store: init from a template, creator-gated
//! updates, and a bounded append log.

use vstd::prelude::*;

use crate::bytes::{bytes_eq, dup, push_all};
use crate::digits::{dec_digits, u64_to_dec};
use crate::engine::Engine;
use crate::errors::{EngineError, ErrorCode, StorageError};
use crate::events::{NpcInitialized, NpcUpdated};
use crate::states::{
    has_npc, has_template, lemma_npc_index_unique, lemma_npc_push, lemma_npc_update,
    lemma_template_index_unique, npc_index, npc_key, template_index, Memory, NpcRecord, State,
};

verus! {

/// A memory log entry: the action, an at-sign, and the time in decimal.
pub open spec fn memory_entry(action: Seq<u8>, now: u64) -> Seq<u8> {
    action + seq![64u8] + dec_digits(now as nat)
}

/// The append log after logging `action` at time `now`: the new entry is
/// joined to the log with a comma, unless that would leave the log longer
/// than 1024 bytes, in which case the log is truncated to the new entry
/// alone.
pub open spec fn memory_after(data: Seq<u8>, action: Seq<u8>, now: u64) -> Seq<u8> {
    if data.len() + memory_entry(action, now).len() > 1024 {
        memory_entry(action, now)
    } else {
        data + seq![44u8] + memory_entry(action, now)
    }
}

/// Builds a memory log entry.
fn build_entry(action: &Vec<u8>, now: u64) -> (r: Vec<u8>)
    ensures
        r@ == memory_entry(action@, now),
{
    let mut r = dup(action);
    r.push(64);
    let d = u64_to_dec(now);
    push_all(&mut r, &d);
    proof {
        assert(r@ =~= memory_entry(action@, now));
    }
    r
}

/// Outcome of `init_npc` on a given engine state: the NPC address must be
/// fresh and the template must exist.
pub open spec fn init_npc_verdict(
    e: Engine,
    caller: Seq<u8>,
    npc_id: Seq<u8>,
    game_id: Seq<u8>,
    template_id: Seq<u8>,
) -> Result<(), EngineError> {
    if has_npc(e.npcs@, caller, npc_id, game_id) {
        Err(EngineError::Storage(StorageError::AlreadyExists))
    } else if !has_template(e.templates@, template_id) {
        Err(EngineError::Storage(StorageError::NotFound))
    } else {
        Ok(())
    }
}

/// Outcome of `update_npc` on a given engine state: the record must exist
/// and the caller must be its creator.
pub open spec fn update_npc_verdict(
    e: Engine,
    caller: Seq<u8>,
    creator: Seq<u8>,
    npc_id: Seq<u8>,
    game_id: Seq<u8>,
) -> Result<(), EngineError> {
    if !has_npc(e.npcs@, creator, npc_id, game_id) {
        Err(EngineError::Storage(StorageError::NotFound))
    } else {
        let rec = e.npcs@[npc_index(e.npcs@, creator, npc_id, game_id)];
        if rec.state.creator@ != caller {
            Err(EngineError::Domain(ErrorCode::NotCreator))
        } else {
            Ok(())
        }
    }
}

/// The NPC record `init_npc` creates: empty memory and dialogue, behavior
/// seeded from the template, the caller as creator.
pub open spec fn is_initialized_npc(
    r: NpcRecord,
    caller: Seq<u8>,
    npc_id: Seq<u8>,
    game_id: Seq<u8>,
    base_behavior: Seq<u8>,
) -> bool {
    &&& r.creator@ == caller
    &&& r.npc_id@ == npc_id
    &&& r.game_id@ == game_id
    &&& r.memory.data@ == Seq::<u8>::empty()
    &&& r.state.creator@ == caller
    &&& r.state.npc_id@ == npc_id
    &&& r.state.game_id@ == game_id
    &&& r.state.dialogue@ == Seq::<u8>::empty()
    &&& r.state.behavior@ == base_behavior
}

impl Engine {
    /// Index of the NPC addressed by `(creator, npc_id, game_id)`, if any.
    fn find_npc(&self, creator: &Vec<u8>, npc_id: &Vec<u8>, game_id: &Vec<u8>) -> (r: Option<
        usize,
    >)
        ensures
            match r {
                Some(i) => i < self.npcs@.len() && npc_key(self.npcs@[i as int]) == (
                    creator@,
                    npc_id@,
                    game_id@,
                ),
                None => !has_npc(self.npcs@, creator@, npc_id@, game_id@),
            },
    {
        let mut i: usize = 0;
        while i < self.npcs.len()
            invariant
                i <= self.npcs@.len(),
                forall|k: int|
                    0 <= k < i ==> #[trigger] npc_key(self.npcs@[k]) != (
                    creator@,
                    npc_id@,
                    game_id@,
                    ),
            decreases self.npcs@.len() - i,
        {
            let rec = &self.npcs[i];
            if bytes_eq(&rec.creator, creator) && bytes_eq(&rec.npc_id, npc_id) && bytes_eq(
                &rec.game_id,
                game_id,
            ) {
                return Some(i);
            }
            i += 1;
        }
        None
    }

    /// The NPC record addressed by `(creator, npc_id, game_id)`, if any.
    pub fn get_npc(&self, creator: &Vec<u8>, npc_id: &Vec<u8>, game_id: &Vec<u8>) -> (r: Option<
        &NpcRecord,
    >)
        requires
            self.wf(),
        ensures
            match r {
                Some(n) => has_npc(self.npcs@, creator@, npc_id@, game_id@) && *n
                    == self.npcs@[npc_index(self.npcs@, creator@, npc_id@, game_id@)],
                None => !has_npc(self.npcs@, creator@, npc_id@, game_id@),
            },
    {
        match self.find_npc(creator, npc_id, game_id) {
            Some(i) => {
                proof {
                    lemma_npc_index_unique(self.npcs@, creator@, npc_id@, game_id@, i as int);
                }
                Some(&self.npcs[i])
            },
            None => None,
        }
    }

    /// Initializes an NPC for the caller: empty memory and dialogue, the
    /// behavior seeded from the referenced template's default.
    pub fn init_npc(
        &mut self,
        caller: Vec<u8>,
        npc_id: Vec<u8>,
        game_id: Vec<u8>,
        template_id: &Vec<u8>,
    ) -> (r: Result<NpcInitialized, EngineError>)
        requires
            old(self).wf(),
        ensures
            final(self).wf(),
            (r is Ok) == (init_npc_verdict(*old(self), caller@, npc_id@, game_id@, template_id@)
                is Ok),
            r is Err ==> *final(self) == *old(self) && r->Err_0 == init_npc_verdict(
                *old(self),
                caller@,
                npc_id@,
                game_id@,
                template_id@,
            )->Err_0,
            r is Ok ==> {
                let base = old(self).templates@[template_index(
                    old(self).templates@,
                    template_id@,
                )].template.base_behavior@;
                &&& final(self).npcs@.len() == old(self).npcs@.len() + 1
                &&& final(self).npcs@.drop_last() == old(self).npcs@
                &&& is_initialized_npc(final(self).npcs@.last(), caller@, npc_id@, game_id@, base)
                &&& final(self).templates == old(self).templates
                &&& final(self).channels == old(self).channels
            },
            r is Ok ==> {
                let ev = r->Ok_0;
                &&& ev.npc_id@ == npc_id@
                &&& ev.game_id@ == game_id@
                &&& ev.creator@ == caller@
                &&& ev.template_id@ == template_id@
            },
    {
        if self.find_npc(&caller, &npc_id, &game_id).is_some() {
            return Err(EngineError::Storage(StorageError::AlreadyExists));
        }
        let ti = match self.find_template(template_id) {
            None => {
                return Err(EngineError::Storage(StorageError::NotFound));
            },
            Some(ti) => ti,
        };
        proof {
            lemma_template_index_unique(self.templates@, template_id@, ti as int);
        }
        let behavior = dup(&self.templates[ti].template.base_behavior);
        let ev = NpcInitialized {
            npc_id: dup(&npc_id),
            game_id: dup(&game_id),
            creator: dup(&caller),
            template_id: dup(template_id),
        };
        let rec = NpcRecord {
            creator: dup(&caller),
            npc_id: dup(&npc_id),
            game_id: dup(&game_id),
            memory: Memory { data: Vec::new() },
            state: State {
                creator: caller,
                npc_id,
                game_id,
                dialogue: Vec::new(),
                behavior,
            },
        };
        proof {
            lemma_npc_push(self.npcs@, rec);
        }
        self.npcs.push(rec);
        proof {
            assert(self.npcs@.drop_last() =~= old(self).npcs@);
        }
        Ok(ev)
    }

    /// Updates an NPC: only its creator may. Logs the action with the
    /// current time in the bounded memory log and overwrites dialogue and
    /// behavior.
    pub fn update_npc(
        &mut self,
        caller: &Vec<u8>,
        creator: &Vec<u8>,
        npc_id: &Vec<u8>,
        game_id: &Vec<u8>,
        action: Vec<u8>,
        dialogue: Vec<u8>,
        behavior: Vec<u8>,
        now: u64,
    ) -> (r: Result<NpcUpdated, EngineError>)
        requires
            old(self).wf(),
        ensures
            final(self).wf(),
            (r is Ok) == (update_npc_verdict(*old(self), caller@, creator@, npc_id@, game_id@)
                is Ok),
            r is Err ==> *final(self) == *old(self) && r->Err_0 == update_npc_verdict(
                *old(self),
                caller@,
                creator@,
                npc_id@,
                game_id@,
            )->Err_0,
            r is Ok ==> {
                let idx = npc_index(old(self).npcs@, creator@, npc_id@, game_id@);
                let pre = old(self).npcs@[idx];
                let post = final(self).npcs@[idx];
                &&& final(self).npcs@.len() == old(self).npcs@.len()
                &&& final(self).npcs@ == old(self).npcs@.update(idx, post)
                &&& npc_key(post) == npc_key(pre)
                &&& post.memory.data@ == memory_after(pre.memory.data@, action@, now)
                &&& post.state.creator == pre.state.creator
                &&& post.state.npc_id == pre.state.npc_id
                &&& post.state.game_id == pre.state.game_id
                &&& post.state.dialogue@ == dialogue@
                &&& post.state.behavior@ == behavior@
                &&& final(self).templates == old(self).templates
                &&& final(self).channels == old(self).channels
            },
            r is Ok ==> {
                let idx = npc_index(old(self).npcs@, creator@, npc_id@, game_id@);
                let pre = old(self).npcs@[idx];
                let ev = r->Ok_0;
                &&& ev.npc_id@ == pre.state.npc_id@
                &&& ev.game_id@ == pre.state.game_id@
                &&& ev.creator@ == caller@
                &&& ev.action@ == action@
                &&& ev.dialogue@ == dialogue@
                &&& ev.behavior@ == behavior@
            },
    {
        let i = match self.find_npc(creator, npc_id, game_id) {
            None => {
                return Err(EngineError::Storage(StorageError::NotFound));
            },
            Some(i) => i,
        };
        proof {
            lemma_npc_index_unique(self.npcs@, creator@, npc_id@, game_id@, i as int);
        }
        if !bytes_eq(caller, &self.npcs[i].state.creator) {
            return Err(EngineError::Domain(ErrorCode::NotCreator));
        }
        let entry = build_entry(&action, now);
        let rec = self.npcs.remove(i);
        let new_data = if entry.len() > 1024 || rec.memory.data.len() > 1024 - entry.len() {
            dup(&entry)
        } else {
            let mut d = rec.memory.data;
            d.push(44);
            push_all(&mut d, &entry);
            d
        };
        proof {
            assert(new_data@ == memory_after(
                old(self).npcs@[i as int].memory.data@,
                action@,
                now,
            ));
        }
        let ev = NpcUpdated {
            npc_id: dup(&rec.state.npc_id),
            game_id: dup(&rec.state.game_id),
            creator: dup(caller),
            action,
            dialogue: dup(&dialogue),
            behavior: dup(&behavior),
        };
        let updated = NpcRecord {
            creator: rec.creator,
            npc_id: rec.npc_id,
            game_id: rec.game_id,
            memory: Memory { data: new_data },
            state: State {
                creator: rec.state.creator,
                npc_id: rec.state.npc_id,
                game_id: rec.state.game_id,
                dialogue,
                behavior,
            },
        };
        proof {
            lemma_npc_update(old(self).npcs@, i as int, updated);
            assert(old(self).npcs@.remove(i as int).insert(i as int, updated) =~= old(
                self,
            ).npcs@.update(i as int, updated));
        }
        self.npcs.insert(i, updated);
        Ok(ev)
    }
}

} // verus!
