//! Per-scope notification state: the live writer count, the batched effect
//! of the current notification turn, and the delivered event stream.
use vstd::prelude::*;
use crate::effect::{ModifyEffect, ModifyInfo};
use crate::path::{PartialPath, path_segments};

verus! {

/// One event of a stream, as its effect and the segments of its path.
pub open spec fn event_view(e: ModifyInfo) -> (ModifyEffect, Seq<Seq<char>>) {
    (e.effect, path_segments(e.path))
}

/// A stream of events, viewed.
pub open spec fn events_view(s: Seq<ModifyInfo>) -> Seq<(ModifyEffect, Seq<Seq<char>>)> {
    s.map_values(|e: ModifyInfo| event_view(e))
}

/// The batching rule: a modified guard whose effect is not empty asks the
/// scheduler for a delivery only when no effect is pending yet.
pub open spec fn spec_needs_schedule(batched: ModifyEffect, effect: ModifyEffect, modified: bool) -> bool {
    modified && batched.spec_is_empty() && !effect.spec_is_empty()
}

/// The pending effect after a guard with `effect` is flushed.
pub open spec fn spec_batch_after(batched: ModifyEffect, effect: ModifyEffect, modified: bool) -> ModifyEffect {
    if modified {
        batched.spec_union(effect)
    } else {
        batched
    }
}

/// `after` is `before` once a guard with `effect`, `path` and `modified`
/// was flushed into it.
pub open spec fn spec_notified(
    before: WriterInfo,
    after: WriterInfo,
    effect: ModifyEffect,
    path: Seq<Seq<char>>,
    modified: bool,
) -> bool {
    let schedule = spec_needs_schedule(before.spec_batched(), effect, modified);
    &&& after.spec_batched() == spec_batch_after(before.spec_batched(), effect, modified)
    &&& after.spec_batched_path() == if schedule {
        path
    } else {
        before.spec_batched_path()
    }
    &&& after.spec_writer_count() == before.spec_writer_count()
    &&& after.spec_events() == before.spec_events()
}

/// `after` is `before` once the scheduler drained it.
pub open spec fn spec_flushed(before: WriterInfo, after: WriterInfo) -> bool {
    &&& after.spec_batched().spec_is_empty()
    &&& after.spec_batched_path() == before.spec_batched_path()
    &&& after.spec_writer_count() == before.spec_writer_count()
    &&& after.spec_events() == if before.spec_batched().spec_is_empty() {
        before.spec_events()
    } else {
        before.spec_events().push((before.spec_batched(), before.spec_batched_path()))
    }
}

/// `after` is `before` with its live writer count moved by `delta`.
pub open spec fn spec_count_moved(before: WriterInfo, after: WriterInfo, delta: int) -> bool {
    &&& after.spec_writer_count() == before.spec_writer_count() + delta
    &&& after.spec_batched() == before.spec_batched()
    &&& after.spec_batched_path() == before.spec_batched_path()
    &&& after.spec_events() == before.spec_events()
}

/// The notification state of one independent scope.
pub struct WriterInfo {
    writer_count: usize,
    batched_modifies: ModifyEffect,
    batched_path: PartialPath,
    delivered: Vec<ModifyInfo>,
}

impl WriterInfo {
    pub closed spec fn spec_writer_count(&self) -> nat {
        self.writer_count as nat
    }

    pub closed spec fn spec_batched(&self) -> ModifyEffect {
        self.batched_modifies
    }

    /// The path given by the guard that opened the pending batch.
    pub closed spec fn spec_batched_path(&self) -> Seq<Seq<char>> {
        path_segments(self.batched_path)
    }

    /// Every event delivered so far, oldest first.
    pub closed spec fn spec_events(&self) -> Seq<(ModifyEffect, Seq<Seq<char>>)> {
        events_view(self.delivered@)
    }

    /// A scope with one live writer, nothing pending, nothing delivered.
    pub fn new() -> (r: WriterInfo)
        ensures
            r.spec_writer_count() == 1,
            r.spec_batched().spec_is_empty(),
            r.spec_events().len() == 0,
    {
        let r = WriterInfo {
            writer_count: 1,
            batched_modifies: ModifyEffect::empty(),
            batched_path: PartialPath::new(),
            delivered: Vec::new(),
        };
        proof {
            assert(r.spec_events() =~= Seq::empty());
        }
        r
    }

    pub fn writer_count(&self) -> (r: usize)
        ensures
            r == self.spec_writer_count(),
    {
        self.writer_count
    }

    pub fn batched_modifies(&self) -> (r: ModifyEffect)
        ensures
            r == self.spec_batched(),
    {
        self.batched_modifies
    }

    pub fn events_len(&self) -> (r: usize)
        ensures
            r == self.spec_events().len(),
    {
        self.delivered.len()
    }

    /// The delivered event at `i`.
    pub fn event(&self, i: usize) -> (r: &ModifyInfo)
        requires
            i < self.spec_events().len(),
        ensures
            event_view(*r) == self.spec_events()[i as int],
    {
        &self.delivered[i]
    }

    /// A writer handle of this scope was cloned.
    pub fn inc_writer(&mut self)
        requires
            old(self).spec_writer_count() < usize::MAX,
        ensures
            spec_count_moved(*old(self), *final(self), 1),
    {
        self.writer_count = self.writer_count + 1;
    }

    /// A writer handle of this scope was dropped.
    pub fn dec_writer(&mut self)
        requires
            old(self).spec_writer_count() > 0,
        ensures
            spec_count_moved(*old(self), *final(self), -1),
    {
        self.writer_count = self.writer_count - 1;
    }

    /// Records the effect of a guard. Returns whether the scheduler has to be
    /// asked for a delivery: only for the first non-empty effect of a turn;
    /// later ones are merged into the pending effect.
    pub fn notify(&mut self, effect: ModifyEffect, path: &PartialPath, modified: bool) -> (schedule: bool)
        ensures
            schedule == spec_needs_schedule(old(self).spec_batched(), effect, modified),
            final(self).spec_batched_path() == if schedule {
                path_segments(*path)
            } else {
                old(self).spec_batched_path()
            },
            final(self).spec_batched() == spec_batch_after(old(self).spec_batched(), effect, modified),
            final(self).spec_writer_count() == old(self).spec_writer_count(),
            final(self).spec_events() == old(self).spec_events(),
    {
        if !modified {
            return false;
        }
        if self.batched_modifies.is_empty() && !effect.is_empty() {
            self.batched_modifies = effect;
            self.batched_path = path.clone_path();
            true
        } else {
            self.batched_modifies = effect.union(&self.batched_modifies);
            false
        }
    }

    /// The scheduler's drain: delivers the pending effect, if any, as one
    /// event with the path of the guard that opened the batch, and clears it.
    pub fn flush(&mut self)
        ensures
            final(self).spec_batched().spec_is_empty(),
            final(self).spec_batched_path() == old(self).spec_batched_path(),
            final(self).spec_writer_count() == old(self).spec_writer_count(),
            final(self).spec_events() == if old(self).spec_batched().spec_is_empty() {
                old(self).spec_events()
            } else {
                old(self).spec_events().push((old(self).spec_batched(), old(self).spec_batched_path()))
            },
    {
        if !self.batched_modifies.is_empty() {
            let info = ModifyInfo { effect: self.batched_modifies, path: self.batched_path.clone_path() };
            let ghost before = self.delivered@;
            self.delivered.push(info);
            proof {
                assert(self.delivered@ == before.push(info));
                assert(events_view(self.delivered@) =~= events_view(before).push(event_view(info)));
            }
        }
        self.batched_modifies = ModifyEffect::empty();
    }
}

} // verus!
