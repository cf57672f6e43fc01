//! The root state: the cell that holds the value, the notification scopes
//! of its writers, and the scheduler requests that are waiting for a drain.
//! Writers, readers and watchers are handles that name a scope of a root
//! state and a projection of its value.
use vstd::prelude::*;
use crate::cell::{BorrowState, StateCell};
use crate::effect::ModifyEffect;
use crate::path::{PartialPath, path_segments};
use crate::notifier::{WriterInfo, spec_count_moved, spec_flushed, spec_needs_schedule, spec_notified};
use crate::part_map::{Compose, PartMap, WholeValue};

verus! {

/// The scope of the root writer.
pub const ROOT_SCOPE: usize = 0;

/// A live shared borrow of a root state's value, to be given back with
/// `release_read`.
pub struct ReadGuard {
    live: bool,
}

/// A root state: the value, its borrow state, one notification scope for
/// the root and its part writers, one more for each split writer, and the
/// requests made to the scheduler since the last drain.
pub struct Stateful<V> {
    cell: StateCell<V>,
    infos: Vec<WriterInfo>,
    requests: Vec<usize>,
    include_partial: bool,
}

impl<V> Stateful<V> {
    /// Whether part writers derived from the root hear events of writers
    /// below them.
    pub closed spec fn spec_include_partial(&self) -> bool {
        self.include_partial
    }

    pub closed spec fn spec_value(&self) -> V {
        self.cell.spec_value()
    }

    pub closed spec fn spec_borrow(&self) -> BorrowState {
        self.cell.spec_borrow()
    }

    /// The notification scopes, the root's first.
    pub closed spec fn spec_scopes(&self) -> Seq<WriterInfo> {
        self.infos@
    }

    /// The scopes for which the scheduler was asked for a delivery since the
    /// last drain, in order.
    pub closed spec fn spec_requests(&self) -> Seq<usize> {
        self.requests@
    }

    pub open spec fn wf(&self) -> bool {
        self.spec_borrow().wf() && self.spec_scopes().len() >= 1
    }

    pub open spec fn has_scope(&self, scope: usize) -> bool {
        scope < self.spec_scopes().len()
    }

    /// A root state holding `value`, with one live root writer.
    pub fn new(value: V) -> (r: Stateful<V>)
        ensures
            r.wf(),
            r.spec_value() == value,
            r.spec_borrow() == BorrowState::Unborrowed,
            r.spec_scopes().len() == 1,
            r.spec_scopes()[0].spec_writer_count() == 1,
            r.spec_scopes()[0].spec_batched().spec_is_empty(),
            r.spec_scopes()[0].spec_events().len() == 0,
            r.spec_requests().len() == 0,
    {
        let mut infos: Vec<WriterInfo> = Vec::new();
        infos.push(WriterInfo::new());
        Stateful { cell: StateCell::new(value), infos, requests: Vec::new(), include_partial: false }
    }

    /// This state, with part writers derived from now on hearing events of
    /// writers below them (`true`) or only events with their own path.
    pub fn include_partial_writers(self, enabled: bool) -> (r: Stateful<V>)
        ensures
            r.spec_include_partial() == enabled,
            r.spec_value() == self.spec_value(),
            r.spec_borrow() == self.spec_borrow(),
            r.spec_scopes() == self.spec_scopes(),
            r.spec_requests() == self.spec_requests(),
    {
        let mut s = self;
        s.include_partial = enabled;
        s
    }

    pub fn includes_partial_writers(&self) -> (r: bool)
        ensures
            r == self.spec_include_partial(),
    {
        self.include_partial
    }

    pub fn borrow_state(&self) -> (r: BorrowState)
        ensures
            r == self.spec_borrow(),
    {
        self.cell.borrow_state()
    }

    pub fn scope_count(&self) -> (r: usize)
        ensures
            r == self.spec_scopes().len(),
    {
        self.infos.len()
    }

    /// The notification state of `scope`.
    pub fn scope(&self, scope: usize) -> (r: &WriterInfo)
        requires
            self.has_scope(scope),
        ensures
            *r == self.spec_scopes()[scope as int],
    {
        &self.infos[scope]
    }

    /// How many scheduler requests wait for the next drain.
    pub fn request_count(&self) -> (r: usize)
        ensures
            r == self.spec_requests().len(),
    {
        self.requests.len()
    }

    /// The value, as it is now.
    pub fn value(&self) -> (r: &V)
        ensures
            *r == self.spec_value(),
    {
        self.cell.value()
    }

    /// Takes a shared borrow of the value. Reading while a write guard is
    /// alive is a programmer error, left out by the precondition.
    pub fn read(&mut self) -> (g: ReadGuard)
        requires
            old(self).wf(),
            old(self).spec_borrow().can_read(),
            old(self).spec_borrow().shared_count() < usize::MAX,
        ensures
            final(self).wf(),
            final(self).spec_value() == old(self).spec_value(),
            final(self).spec_borrow() == BorrowState::Shared(
                (old(self).spec_borrow().shared_count() + 1) as usize,
            ),
            final(self).spec_scopes() == old(self).spec_scopes(),
            final(self).spec_requests() == old(self).spec_requests(),
    {
        self.cell.begin_read();
        ReadGuard { live: true }
    }

    /// Gives back a shared borrow.
    pub fn release_read(&mut self, guard: ReadGuard)
        requires
            old(self).wf(),
            old(self).spec_borrow() is Shared,
        ensures
            final(self).wf(),
            final(self).spec_value() == old(self).spec_value(),
            old(self).spec_borrow().shared_count() == 1 ==> final(self).spec_borrow()
                == BorrowState::Unborrowed,
            old(self).spec_borrow().shared_count() > 1 ==> final(self).spec_borrow()
                == BorrowState::Shared((old(self).spec_borrow().shared_count() - 1) as usize),
            final(self).spec_scopes() == old(self).spec_scopes(),
            final(self).spec_requests() == old(self).spec_requests(),
    {
        self.cell.end_read();
    }

    /// Opens a write guard on `scope`, with `path`, `effect` and the
    /// projection `map`. Writing while any borrow is alive is a programmer
    /// error, left out by the precondition.
    pub(crate) fn open_write<M>(&mut self, scope: usize, path: PartialPath, effect: ModifyEffect, map: M) -> (w: WriteRef<M>)
        requires
            old(self).wf(),
            old(self).has_scope(scope),
            old(self).spec_borrow().can_write(),
        ensures
            final(self).wf(),
            final(self).spec_value() == old(self).spec_value(),
            final(self).spec_borrow() == BorrowState::Exclusive,
            final(self).spec_scopes() == old(self).spec_scopes(),
            final(self).spec_requests() == old(self).spec_requests(),
            w.spec_scope() == scope,
            w.spec_path() == path_segments(path),
            w.spec_effect() == effect,
            !w.spec_modified(),
            w.spec_map() == map,
    {
        self.cell.begin_write();
        WriteRef { scope, path, effect, modified: false, map }
    }

    /// A write guard on the whole value that notifies data and framework
    /// observers.
    pub fn write(&mut self) -> (w: WriteRef<WholeValue>)
        requires
            old(self).wf(),
            old(self).spec_borrow().can_write(),
        ensures
            final(self).wf(),
            final(self).spec_value() == old(self).spec_value(),
            final(self).spec_borrow() == BorrowState::Exclusive,
            final(self).spec_scopes() == old(self).spec_scopes(),
            final(self).spec_requests() == old(self).spec_requests(),
            w.spec_scope() == ROOT_SCOPE,
            w.spec_path().len() == 0,
            w.spec_effect() == ModifyEffect::spec_both(),
            !w.spec_modified(),
    {
        let w = self.open_write(ROOT_SCOPE, PartialPath::new(), ModifyEffect::both(), WholeValue);
        proof {
            assert(w.spec_path() =~= Seq::<Seq<char>>::empty());
        }
        w
    }

    /// A write guard on the whole value that notifies data observers only.
    pub fn silent(&mut self) -> (w: WriteRef<WholeValue>)
        requires
            old(self).wf(),
            old(self).spec_borrow().can_write(),
        ensures
            final(self).wf(),
            final(self).spec_value() == old(self).spec_value(),
            final(self).spec_borrow() == BorrowState::Exclusive,
            final(self).spec_scopes() == old(self).spec_scopes(),
            final(self).spec_requests() == old(self).spec_requests(),
            w.spec_scope() == ROOT_SCOPE,
            w.spec_path().len() == 0,
            w.spec_effect() == ModifyEffect::spec_data(),
            !w.spec_modified(),
    {
        let w = self.open_write(ROOT_SCOPE, PartialPath::new(), ModifyEffect::data_only(), WholeValue);
        proof {
            assert(w.spec_path() =~= Seq::<Seq<char>>::empty());
        }
        w
    }

    /// A write guard on the whole value that notifies the framework only.
    pub fn shallow(&mut self) -> (w: WriteRef<WholeValue>)
        requires
            old(self).wf(),
            old(self).spec_borrow().can_write(),
        ensures
            final(self).wf(),
            final(self).spec_value() == old(self).spec_value(),
            final(self).spec_borrow() == BorrowState::Exclusive,
            final(self).spec_scopes() == old(self).spec_scopes(),
            final(self).spec_requests() == old(self).spec_requests(),
            w.spec_scope() == ROOT_SCOPE,
            w.spec_path().len() == 0,
            w.spec_effect() == ModifyEffect::spec_framework(),
            !w.spec_modified(),
    {
        let w = self.open_write(ROOT_SCOPE, PartialPath::new(), ModifyEffect::framework_only(), WholeValue);
        proof {
            assert(w.spec_path() =~= Seq::<Seq<char>>::empty());
        }
        w
    }

    /// `scope` got one more live writer handle.
    pub(crate) fn inc_writer(&mut self, scope: usize)
        requires
            old(self).wf(),
            old(self).has_scope(scope),
            old(self).spec_scopes()[scope as int].spec_writer_count() < usize::MAX,
        ensures
            spec_writers_moved(*old(self), *final(self), scope, 1),
    {
        self.infos[scope].inc_writer();
    }

    /// A live writer handle of `scope` was dropped.
    pub(crate) fn dec_writer(&mut self, scope: usize)
        requires
            old(self).wf(),
            old(self).has_scope(scope),
            old(self).spec_scopes()[scope as int].spec_writer_count() > 0,
        ensures
            spec_writers_moved(*old(self), *final(self), scope, -1),
    {
        self.infos[scope].dec_writer();
    }

    /// Adds an independent scope with one live writer; returns its index.
    pub(crate) fn add_scope(&mut self) -> (scope: usize)
        requires
            old(self).wf(),
            old(self).spec_scopes().len() < usize::MAX,
        ensures
            final(self).wf(),
            scope == old(self).spec_scopes().len(),
            final(self).spec_scopes() == old(self).spec_scopes().push(final(self).spec_scopes()[scope as int]),
            final(self).spec_scopes()[scope as int].spec_writer_count() == 1,
            final(self).spec_scopes()[scope as int].spec_batched().spec_is_empty(),
            final(self).spec_scopes()[scope as int].spec_events().len() == 0,
            final(self).spec_value() == old(self).spec_value(),
            final(self).spec_borrow() == old(self).spec_borrow(),
            final(self).spec_requests() == old(self).spec_requests(),
    {
        let scope = self.infos.len();
        self.infos.push(WriterInfo::new());
        scope
    }

    /// Whether the root writer is the only live writer.
    pub fn is_sole_writer(&self) -> (r: bool)
        requires
            self.wf(),
        ensures
            r == spec_sole_writer(*self),
    {
        if self.infos[ROOT_SCOPE].writer_count() != 1 {
            return false;
        }
        let mut j: usize = 1;
        while j < self.infos.len()
            invariant
                1 <= j <= self.infos@.len(),
                forall|k: int| 1 <= k < j ==> #[trigger] self.spec_scopes()[k].spec_writer_count() == 0,
            decreases self.infos.len() - j,
        {
            if self.infos[j].writer_count() != 0 {
                return false;
            }
            j = j + 1;
        }
        true
    }

    /// Downgrades the root to a reader when it is the only live writer;
    /// otherwise the state comes back unchanged and usable.
    pub fn into_reader(self) -> (r: Result<Reader<V>, Stateful<V>>)
        requires
            self.wf(),
        ensures
            r is Ok <==> spec_sole_writer(self),
            r is Ok ==> r->Ok_0.spec_state() == self,
            r is Err ==> r->Err_0 == self,
    {
        if self.is_sole_writer() {
            Ok(Reader { state: self })
        } else {
            Err(self)
        }
    }

    /// The value, when the root is the only live writer and no borrow of it
    /// is alive; the state otherwise.
    pub fn try_into_value(self) -> (r: Result<V, Stateful<V>>)
        requires
            self.wf(),
        ensures
            r is Ok <==> spec_sole_writer(self) && self.spec_borrow() is Unborrowed,
            r is Ok ==> r->Ok_0 == self.spec_value(),
            r is Err ==> r->Err_0 == self,
    {
        if self.is_sole_writer() && self.cell.borrow_state() == BorrowState::Unborrowed {
            Ok(self.cell.into_inner())
        } else {
            Err(self)
        }
    }

    /// Records the effect of a guard on `scope`, and asks the scheduler for a
    /// delivery when the batching rule says so.
    fn notify_scope(&mut self, scope: usize, effect: ModifyEffect, path: &PartialPath, modified: bool)
        requires
            old(self).wf(),
            old(self).has_scope(scope),
        ensures
            final(self).wf(),
            final(self).spec_value() == old(self).spec_value(),
            final(self).spec_borrow() == old(self).spec_borrow(),
            final(self).spec_include_partial() == old(self).spec_include_partial(),
            final(self).spec_scopes().len() == old(self).spec_scopes().len(),
            forall|j: int|
                0 <= j < old(self).spec_scopes().len() && j != scope ==> final(self).spec_scopes()[j]
                    == old(self).spec_scopes()[j],
            spec_notified(
                old(self).spec_scopes()[scope as int],
                final(self).spec_scopes()[scope as int],
                effect,
                path_segments(*path),
                modified,
            ),
            final(self).spec_requests() == if spec_needs_schedule(
                old(self).spec_scopes()[scope as int].spec_batched(),
                effect,
                modified,
            ) {
                old(self).spec_requests().push(scope)
            } else {
                old(self).spec_requests()
            },
    {
        let schedule = self.infos[scope].notify(effect, path, modified);
        if schedule {
            self.requests.push(scope);
        }
    }

    /// The scheduler's turn: every scope with a pending effect delivers it as
    /// one event, and the requests are cleared.
    pub fn run_until_stalled(&mut self)
        requires
            old(self).wf(),
        ensures
            final(self).wf(),
            final(self).spec_value() == old(self).spec_value(),
            final(self).spec_borrow() == old(self).spec_borrow(),
            final(self).spec_include_partial() == old(self).spec_include_partial(),
            final(self).spec_scopes().len() == old(self).spec_scopes().len(),
            forall|j: int|
                0 <= j < old(self).spec_scopes().len() ==> spec_flushed(
                    old(self).spec_scopes()[j],
                    #[trigger] final(self).spec_scopes()[j],
                ),
            final(self).spec_requests().len() == 0,
    {
        let mut i: usize = 0;
        let n = self.infos.len();
        while i < n
            invariant
                n == old(self).spec_scopes().len(),
                i <= n,
                self.wf(),
                self.spec_value() == old(self).spec_value(),
                self.spec_borrow() == old(self).spec_borrow(),
                self.spec_include_partial() == old(self).spec_include_partial(),
                self.spec_scopes().len() == n,
                forall|j: int| 0 <= j < i ==> spec_flushed(old(self).spec_scopes()[j], #[trigger] self.spec_scopes()[j]),
                forall|j: int| i <= j < n ==> #[trigger] self.spec_scopes()[j] == old(self).spec_scopes()[j],
            decreases n - i,
        {
            self.infos[i].flush();
            i = i + 1;
        }
        self.requests.clear();
    }
}

/// The root writer is the only live writer: no part writer of the root
/// scope and no split writer is alive.
pub open spec fn spec_sole_writer<V>(state: Stateful<V>) -> bool {
    &&& state.spec_scopes()[ROOT_SCOPE as int].spec_writer_count() == 1
    &&& forall|j: int| 1 <= j < state.spec_scopes().len() ==> #[trigger] state.spec_scopes()[j].spec_writer_count() == 0
}

/// A root state that can only be read.
pub struct Reader<V> {
    state: Stateful<V>,
}

impl<V> Reader<V> {
    pub closed spec fn spec_state(&self) -> Stateful<V> {
        self.state
    }

    /// The value, as it is now.
    pub fn read(&self) -> (r: &V)
        ensures
            *r == self.spec_state().spec_value(),
    {
        self.state.value()
    }

    /// The value, when no borrow of it is alive; the reader otherwise.
    pub fn try_into_value(self) -> (r: Result<V, Reader<V>>)
        ensures
            r is Ok <==> self.spec_state().spec_borrow() is Unborrowed,
            r is Ok ==> r->Ok_0 == self.spec_state().spec_value(),
            r is Err ==> r->Err_0 == self,
    {
        if self.state.borrow_state() == BorrowState::Unborrowed {
            Ok(self.state.cell.into_inner())
        } else {
            Err(self)
        }
    }
}

/// `after` is `before` once a guard on `scope` with `effect`, `path` and
/// `modified` was flushed into it: that scope is notified, every other
/// scope and the value stay as they were.
pub open spec fn spec_state_notified<V>(
    before: Stateful<V>,
    after: Stateful<V>,
    scope: usize,
    effect: ModifyEffect,
    path: Seq<Seq<char>>,
    modified: bool,
) -> bool {
    &&& after.wf()
    &&& after.spec_value() == before.spec_value()
    &&& after.spec_include_partial() == before.spec_include_partial()
    &&& after.spec_scopes().len() == before.spec_scopes().len()
    &&& forall|j: int|
        0 <= j < before.spec_scopes().len() && j != scope ==> after.spec_scopes()[j]
            == before.spec_scopes()[j]
    &&& spec_notified(before.spec_scopes()[scope as int], after.spec_scopes()[scope as int], effect, path, modified)
    &&& after.spec_requests() == if spec_needs_schedule(
        before.spec_scopes()[scope as int].spec_batched(),
        effect,
        modified,
    ) {
        before.spec_requests().push(scope)
    } else {
        before.spec_requests()
    }
}

/// `after` is `before` with the live writer count of `scope` moved by
/// `delta`; nothing else changed.
pub open spec fn spec_writers_moved<V>(before: Stateful<V>, after: Stateful<V>, scope: usize, delta: int) -> bool {
    &&& after.wf()
    &&& after.spec_value() == before.spec_value()
    &&& after.spec_borrow() == before.spec_borrow()
    &&& after.spec_requests() == before.spec_requests()
    &&& after.spec_include_partial() == before.spec_include_partial()
    &&& after.spec_scopes().len() == before.spec_scopes().len()
    &&& forall|j: int|
        0 <= j < before.spec_scopes().len() && j != scope ==> after.spec_scopes()[j]
            == before.spec_scopes()[j]
    &&& spec_count_moved(before.spec_scopes()[scope as int], after.spec_scopes()[scope as int], delta)
}

/// A scoped write guard. It names the scope to notify, the path to carry
/// in the event, the effect to report and the projection of the value it
/// writes; `modified` records whether the value was reached for writing.
pub struct WriteRef<M> {
    scope: usize,
    path: PartialPath,
    effect: ModifyEffect,
    modified: bool,
    map: M,
}

impl<M> WriteRef<M> {
    pub closed spec fn spec_scope(&self) -> usize {
        self.scope
    }

    pub closed spec fn spec_path(&self) -> Seq<Seq<char>> {
        path_segments(self.path)
    }

    pub closed spec fn spec_effect(&self) -> ModifyEffect {
        self.effect
    }

    pub closed spec fn spec_modified(&self) -> bool {
        self.modified
    }

    pub closed spec fn spec_map(&self) -> M {
        self.map
    }

    pub fn is_modified(&self) -> (r: bool)
        ensures
            r == self.spec_modified(),
    {
        self.modified
    }

    pub fn effect(&self) -> (r: ModifyEffect)
        ensures
            r == self.spec_effect(),
    {
        self.effect
    }

    /// The part this guard writes, as it is now.
    pub fn value<'a, V, U>(&self, state: &'a Stateful<V>) -> (r: &'a U)
        where
            M: PartMap<V, U>,
        requires
            self.spec_map().has_part(state.spec_value()),
        ensures
            *r == self.spec_map().part(state.spec_value()),
    {
        self.map.part_ref(state.value())
    }

    /// The part this guard writes, for writing: the guard now counts as
    /// modified, and what is written lands in the root value through the
    /// projection.
    pub fn value_mut<'a, V, U>(&mut self, state: &'a mut Stateful<V>) -> (r: &'a mut U)
        where
            M: PartMap<V, U>,
        requires
            old(state).spec_borrow() is Exclusive,
            old(self).spec_map().has_part(old(state).spec_value()),
        ensures
            *r == old(self).spec_map().part(old(state).spec_value()),
            final(state).spec_value() == old(self).spec_map().put(old(state).spec_value(), *final(r)),
            final(state).spec_borrow() == old(state).spec_borrow(),
            final(state).spec_scopes() == old(state).spec_scopes(),
            final(state).spec_requests() == old(state).spec_requests(),
            final(self).spec_modified(),
            final(self).spec_scope() == old(self).spec_scope(),
            final(self).spec_path() == old(self).spec_path(),
            final(self).spec_effect() == old(self).spec_effect(),
            final(self).spec_map() == old(self).spec_map(),
    {
        self.modified = true;
        self.map.part_mut(state.cell.value_mut())
    }

    /// Replaces the part this guard writes by `value`.
    pub fn set<V, U>(&mut self, state: &mut Stateful<V>, value: U)
        where
            M: PartMap<V, U>,
        requires
            old(state).spec_borrow() is Exclusive,
            old(self).spec_map().has_part(old(state).spec_value()),
        ensures
            final(state).spec_value() == old(self).spec_map().put(old(state).spec_value(), value),
            final(state).spec_borrow() == old(state).spec_borrow(),
            final(state).spec_scopes() == old(state).spec_scopes(),
            final(state).spec_requests() == old(state).spec_requests(),
            final(self).spec_modified(),
            final(self).spec_scope() == old(self).spec_scope(),
            final(self).spec_path() == old(self).spec_path(),
            final(self).spec_effect() == old(self).spec_effect(),
            final(self).spec_map() == old(self).spec_map(),
    {
        let r = self.value_mut(state);
        *r = value;
    }

    /// Forgets the modifications made through this guard so far: they will
    /// not be notified. Returns whether there were any.
    pub fn forget_modifies(&mut self) -> (r: bool)
        ensures
            r == old(self).spec_modified(),
            !final(self).spec_modified(),
            final(self).spec_scope() == old(self).spec_scope(),
            final(self).spec_path() == old(self).spec_path(),
            final(self).spec_effect() == old(self).spec_effect(),
            final(self).spec_map() == old(self).spec_map(),
    {
        let r = self.modified;
        self.modified = false;
        r
    }

    /// Flushes what this guard accumulated into its scope's batch.
    fn notify<V>(&mut self, state: &mut Stateful<V>)
        requires
            old(state).wf(),
            old(state).has_scope(old(self).spec_scope()),
        ensures
            spec_state_notified(
                *old(state),
                *final(state),
                old(self).spec_scope(),
                old(self).spec_effect(),
                old(self).spec_path(),
                old(self).spec_modified(),
            ),
            final(state).spec_borrow() == old(state).spec_borrow(),
            !final(self).spec_modified(),
            final(self).spec_scope() == old(self).spec_scope(),
            final(self).spec_path() == old(self).spec_path(),
            final(self).spec_effect() == old(self).spec_effect(),
            final(self).spec_map() == old(self).spec_map(),
    {
        state.notify_scope(self.scope, self.effect, &self.path, self.modified);
        self.modified = false;
    }

    /// Flushes what was accumulated under the current effect, then tags
    /// later writes with `effect`.
    fn with_modify_effect<V>(self, state: &mut Stateful<V>, effect: ModifyEffect) -> (r: WriteRef<M>)
        requires
            old(state).wf(),
            old(state).has_scope(self.spec_scope()),
        ensures
            spec_state_notified(
                *old(state),
                *final(state),
                self.spec_scope(),
                self.spec_effect(),
                self.spec_path(),
                self.spec_modified(),
            ),
            final(state).spec_borrow() == old(state).spec_borrow(),
            !r.spec_modified(),
            r.spec_effect() == effect,
            r.spec_scope() == self.spec_scope(),
            r.spec_path() == self.spec_path(),
            r.spec_map() == self.spec_map(),
    {
        let mut w = self;
        w.notify(state);
        w.effect = effect;
        w
    }

    /// This guard, tagged so that later writes notify data observers only.
    /// What was written before is notified under the previous tag first.
    pub fn silent<V>(self, state: &mut Stateful<V>) -> (r: WriteRef<M>)
        requires
            old(state).wf(),
            old(state).has_scope(self.spec_scope()),
        ensures
            spec_state_notified(
                *old(state),
                *final(state),
                self.spec_scope(),
                self.spec_effect(),
                self.spec_path(),
                self.spec_modified(),
            ),
            final(state).spec_borrow() == old(state).spec_borrow(),
            !r.spec_modified(),
            r.spec_effect() == ModifyEffect::spec_data(),
            r.spec_scope() == self.spec_scope(),
            r.spec_path() == self.spec_path(),
            r.spec_map() == self.spec_map(),
    {
        self.with_modify_effect(state, ModifyEffect::data_only())
    }

    /// This guard, tagged so that later writes notify the framework only.
    /// What was written before is notified under the previous tag first.
    pub fn shallow<V>(self, state: &mut Stateful<V>) -> (r: WriteRef<M>)
        requires
            old(state).wf(),
            old(state).has_scope(self.spec_scope()),
        ensures
            spec_state_notified(
                *old(state),
                *final(state),
                self.spec_scope(),
                self.spec_effect(),
                self.spec_path(),
                self.spec_modified(),
            ),
            final(state).spec_borrow() == old(state).spec_borrow(),
            !r.spec_modified(),
            r.spec_effect() == ModifyEffect::spec_framework(),
            r.spec_scope() == self.spec_scope(),
            r.spec_path() == self.spec_path(),
            r.spec_map() == self.spec_map(),
    {
        self.with_modify_effect(state, ModifyEffect::framework_only())
    }

    /// Projects the guard onto a part of what it writes. What was written
    /// before is notified first; the projected guard keeps the scope, the
    /// path and the effect.
    pub fn map<V, W, M2>(orig: WriteRef<M>, state: &mut Stateful<V>, part_map: M2) -> (r: WriteRef<Compose<M, M2, W>>)
        requires
            old(state).wf(),
            old(state).has_scope(orig.spec_scope()),
        ensures
            spec_state_notified(
                *old(state),
                *final(state),
                orig.spec_scope(),
                orig.spec_effect(),
                orig.spec_path(),
                orig.spec_modified(),
            ),
            final(state).spec_borrow() == old(state).spec_borrow(),
            !r.spec_modified(),
            r.spec_effect() == orig.spec_effect(),
            r.spec_scope() == orig.spec_scope(),
            r.spec_path() == orig.spec_path(),
            r.spec_map().outer == orig.spec_map(),
            r.spec_map().inner == part_map,
    {
        let mut w = orig;
        w.notify(state);
        let WriteRef { scope, path, effect, modified, map } = w;
        WriteRef { scope, path, effect, modified, map: Compose::new(map, part_map) }
    }

    /// Projects the guard onto a part that the value may lack. When it lacks
    /// it, the guard comes back untouched, nothing notified; otherwise as
    /// `map`.
    pub fn filter_map<V, W, U, M2>(orig: WriteRef<M>, state: &mut Stateful<V>, part_map: M2) -> (r: Result<WriteRef<Compose<M, M2, W>>, WriteRef<M>>)
        where
            M: PartMap<V, W>,
            M2: PartMap<W, U>,
            W: 'static,
        requires
            old(state).wf(),
            old(state).has_scope(orig.spec_scope()),
            orig.spec_map().has_part(old(state).spec_value()),
        ensures
            r is Ok <==> part_map.has_part(orig.spec_map().part(old(state).spec_value())),
            r is Err ==> r->Err_0 == orig && *final(state) == *old(state),
            r is Ok ==> {
                &&& spec_state_notified(
                    *old(state),
                    *final(state),
                    orig.spec_scope(),
                    orig.spec_effect(),
                    orig.spec_path(),
                    orig.spec_modified(),
                )
                &&& final(state).spec_borrow() == old(state).spec_borrow()
                &&& !r->Ok_0.spec_modified()
                &&& r->Ok_0.spec_effect() == orig.spec_effect()
                &&& r->Ok_0.spec_scope() == orig.spec_scope()
                &&& r->Ok_0.spec_path() == orig.spec_path()
                &&& r->Ok_0.spec_map().outer == orig.spec_map()
                &&& r->Ok_0.spec_map().inner == part_map
            },
    {
        let present = part_map.check(orig.map.part_ref(state.value()));
        if present {
            Ok(WriteRef::map(orig, state, part_map))
        } else {
            Err(orig)
        }
    }

    /// Ends the guard: what it accumulated is notified, and the exclusive
    /// borrow is given back.
    pub fn release<V>(self, state: &mut Stateful<V>)
        requires
            old(state).wf(),
            old(state).has_scope(self.spec_scope()),
            old(state).spec_borrow() is Exclusive,
        ensures
            final(state).spec_borrow() == BorrowState::Unborrowed,
            spec_state_notified(
                *old(state),
                *final(state),
                self.spec_scope(),
                self.spec_effect(),
                self.spec_path(),
                self.spec_modified(),
            ),
    {
        let mut w = self;
        w.notify(state);
        state.cell.end_write();
    }
}

} // verus!
