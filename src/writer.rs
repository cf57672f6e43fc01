//! Derived writers of a root state. A part writer shares the root's
//! notification scope and carries its own path; a split writer has a scope
//! of its own. Both write through to the root value via a projection.
use vstd::prelude::*;
use crate::cell::BorrowState;
use crate::effect::{ModifyEffect, PartialId};
use crate::path::{PartialPath, path_segments};
use crate::part_map::{Compose, PartMap, WholeValue};
use crate::state::{ROOT_SCOPE, Stateful, WriteRef, spec_writers_moved};
use crate::watcher::{PartReader, Watcher};

verus! {

/// A writer of a part of a root state, in the root's notification scope.
/// Its events carry its path; its subscribers hear events with that path,
/// and, when partial writers are included, those with longer paths below.
pub struct PartWriter<M> {
    scope: usize,
    path: PartialPath,
    include_partial: bool,
    map: M,
}

impl<V> Stateful<V> {
    /// A part writer below the root, at the path of `id` (none for a
    /// wildcard), writing the part that `part_map` projects.
    pub fn part_writer<U, M: PartMap<V, U>>(&mut self, id: PartialId, part_map: M) -> (w: PartWriter<M>)
        requires
            old(self).wf(),
            old(self).spec_scopes()[ROOT_SCOPE as int].spec_writer_count() < usize::MAX,
        ensures
            spec_writers_moved(*old(self), *final(self), ROOT_SCOPE, 1),
            w.spec_scope() == ROOT_SCOPE,
            w.spec_path() == match id@ {
                Some(s) => seq![s],
                None => Seq::<Seq<char>>::empty(),
            },
            w.spec_include_partial() == old(self).spec_include_partial(),
            w.spec_map() == part_map,
    {
        let inherit = self.includes_partial_writers();
        self.inc_writer(ROOT_SCOPE);
        let root = PartialPath::new();
        let path = id.child_path(&root);
        proof {
            match id@ {
                Some(s) => {
                    assert(Seq::<Seq<char>>::empty().push(s) =~= seq![s]);
                },
                None => {},
            }
        }
        PartWriter { scope: ROOT_SCOPE, path, include_partial: inherit, map: part_map }
    }

    /// A wildcard part writer: `part_writer(PartialId::any(), part_map)`.
    pub fn map_writer<U, M: PartMap<V, U>>(&mut self, part_map: M) -> (w: PartWriter<M>)
        requires
            old(self).wf(),
            old(self).spec_scopes()[ROOT_SCOPE as int].spec_writer_count() < usize::MAX,
        ensures
            spec_writers_moved(*old(self), *final(self), ROOT_SCOPE, 1),
            w.spec_scope() == ROOT_SCOPE,
            w.spec_path().len() == 0,
            w.spec_include_partial() == old(self).spec_include_partial(),
            w.spec_map() == part_map,
    {
        self.part_writer(PartialId::any(), part_map)
    }

    /// A split writer: it writes the part that `part_map` projects, in a
    /// new notification scope of its own.
    pub fn split_writer<U, M: PartMap<V, U>>(&mut self, part_map: M) -> (w: SplittedWriter<M>)
        requires
            old(self).wf(),
            old(self).spec_scopes().len() < usize::MAX,
        ensures
            final(self).wf(),
            w.spec_scope() == old(self).spec_scopes().len(),
            final(self).spec_scopes() == old(self).spec_scopes().push(final(self).spec_scopes()[w.spec_scope() as int]),
            final(self).spec_scopes()[w.spec_scope() as int].spec_writer_count() == 1,
            final(self).spec_scopes()[w.spec_scope() as int].spec_batched().spec_is_empty(),
            final(self).spec_scopes()[w.spec_scope() as int].spec_events().len() == 0,
            final(self).spec_value() == old(self).spec_value(),
            final(self).spec_borrow() == old(self).spec_borrow(),
            final(self).spec_requests() == old(self).spec_requests(),
            w.spec_map() == part_map,
    {
        let scope = self.add_scope();
        SplittedWriter { scope, map: part_map }
    }
}

impl<M> PartWriter<M> {
    pub closed spec fn spec_scope(&self) -> usize {
        self.scope
    }

    pub closed spec fn spec_path(&self) -> Seq<Seq<char>> {
        path_segments(self.path)
    }

    pub closed spec fn spec_include_partial(&self) -> bool {
        self.include_partial
    }

    pub closed spec fn spec_map(&self) -> M {
        self.map
    }

    /// The projection this writer writes through.
    pub fn map_fn(&self) -> (r: M)
        where
            M: Copy,
        ensures
            r == self.spec_map(),
    {
        self.map
    }

    /// The path of this writer below the root.
    pub fn scope_path(&self) -> (r: &PartialPath)
        ensures
            path_segments(*r) == self.spec_path(),
    {
        &self.path
    }

    pub fn includes_partial_writers(&self) -> (r: bool)
        ensures
            r == self.spec_include_partial(),
    {
        self.include_partial
    }

    /// This writer, with subscribers that hear events of writers below it
    /// too (`true`) or only events with its own path (`false`).
    pub fn include_partial_writers(self, enabled: bool) -> (r: PartWriter<M>)
        ensures
            r.spec_include_partial() == enabled,
            r.spec_scope() == self.spec_scope(),
            r.spec_path() == self.spec_path(),
            r.spec_map() == self.spec_map(),
    {
        let mut w = self;
        w.include_partial = enabled;
        w
    }

    /// The part this writer writes, as it is now.
    pub fn read<'a, V, U>(&self, state: &'a Stateful<V>) -> (r: &'a U)
        where
            M: PartMap<V, U>,
        requires
            self.spec_map().has_part(state.spec_value()),
        ensures
            *r == self.spec_map().part(state.spec_value()),
    {
        self.map.part_ref(state.value())
    }

    fn write_ref<V>(&self, state: &mut Stateful<V>, effect: ModifyEffect) -> (w: WriteRef<M>)
        where
            M: Copy,
        requires
            old(state).wf(),
            old(state).has_scope(self.spec_scope()),
            old(state).spec_borrow().can_write(),
        ensures
            final(state).wf(),
            final(state).spec_value() == old(state).spec_value(),
            final(state).spec_borrow() == BorrowState::Exclusive,
            final(state).spec_scopes() == old(state).spec_scopes(),
            final(state).spec_requests() == old(state).spec_requests(),
            w.spec_scope() == self.spec_scope(),
            w.spec_path() == self.spec_path(),
            w.spec_effect() == effect,
            !w.spec_modified(),
            w.spec_map() == self.spec_map(),
    {
        state.open_write(self.scope, self.path.clone_path(), effect, self.map)
    }

    /// A write guard on the part, notifying data and framework observers
    /// with this writer's path.
    pub fn write<V>(&self, state: &mut Stateful<V>) -> (w: WriteRef<M>)
        where
            M: Copy,
        requires
            old(state).wf(),
            old(state).has_scope(self.spec_scope()),
            old(state).spec_borrow().can_write(),
        ensures
            final(state).wf(),
            final(state).spec_value() == old(state).spec_value(),
            final(state).spec_borrow() == BorrowState::Exclusive,
            final(state).spec_scopes() == old(state).spec_scopes(),
            final(state).spec_requests() == old(state).spec_requests(),
            w.spec_scope() == self.spec_scope(),
            w.spec_path() == self.spec_path(),
            w.spec_effect() == ModifyEffect::spec_both(),
            !w.spec_modified(),
            w.spec_map() == self.spec_map(),
    {
        self.write_ref(state, ModifyEffect::both())
    }

    /// A write guard on the part, notifying data observers only.
    pub fn silent<V>(&self, state: &mut Stateful<V>) -> (w: WriteRef<M>)
        where
            M: Copy,
        requires
            old(state).wf(),
            old(state).has_scope(self.spec_scope()),
            old(state).spec_borrow().can_write(),
        ensures
            final(state).wf(),
            final(state).spec_value() == old(state).spec_value(),
            final(state).spec_borrow() == BorrowState::Exclusive,
            final(state).spec_scopes() == old(state).spec_scopes(),
            final(state).spec_requests() == old(state).spec_requests(),
            w.spec_scope() == self.spec_scope(),
            w.spec_path() == self.spec_path(),
            w.spec_effect() == ModifyEffect::spec_data(),
            !w.spec_modified(),
            w.spec_map() == self.spec_map(),
    {
        self.write_ref(state, ModifyEffect::data_only())
    }

    /// A write guard on the part, notifying the framework only.
    pub fn shallow<V>(&self, state: &mut Stateful<V>) -> (w: WriteRef<M>)
        where
            M: Copy,
        requires
            old(state).wf(),
            old(state).has_scope(self.spec_scope()),
            old(state).spec_borrow().can_write(),
        ensures
            final(state).wf(),
            final(state).spec_value() == old(state).spec_value(),
            final(state).spec_borrow() == BorrowState::Exclusive,
            final(state).spec_scopes() == old(state).spec_scopes(),
            final(state).spec_requests() == old(state).spec_requests(),
            w.spec_scope() == self.spec_scope(),
            w.spec_path() == self.spec_path(),
            w.spec_effect() == ModifyEffect::spec_framework(),
            !w.spec_modified(),
            w.spec_map() == self.spec_map(),
    {
        self.write_ref(state, ModifyEffect::framework_only())
    }

    /// Another handle on the same part and scope; the scope counts one more
    /// live writer.
    pub fn clone_writer<V>(&self, state: &mut Stateful<V>) -> (w: PartWriter<M>)
        where
            M: Copy,
        requires
            old(state).wf(),
            old(state).has_scope(self.spec_scope()),
            old(state).spec_scopes()[self.spec_scope() as int].spec_writer_count() < usize::MAX,
        ensures
            spec_writers_moved(*old(state), *final(state), self.spec_scope(), 1),
            w.spec_scope() == self.spec_scope(),
            w.spec_path() == self.spec_path(),
            w.spec_include_partial() == self.spec_include_partial(),
            w.spec_map() == self.spec_map(),
    {
        state.inc_writer(self.scope);
        PartWriter {
            scope: self.scope,
            path: self.path.clone_path(),
            include_partial: self.include_partial,
            map: self.map,
        }
    }

    /// Drops this handle; the scope counts one live writer less.
    pub fn release<V>(self, state: &mut Stateful<V>)
        requires
            old(state).wf(),
            old(state).has_scope(self.spec_scope()),
            old(state).spec_scopes()[self.spec_scope() as int].spec_writer_count() > 0,
        ensures
            spec_writers_moved(*old(state), *final(state), self.spec_scope(), -1),
    {
        state.dec_writer(self.scope);
    }

    /// A writer of a part of this writer's part, in the same scope, at this
    /// writer's path extended by `id` (unchanged for a wildcard).
    pub fn part_writer<V, W, M2>(&self, state: &mut Stateful<V>, id: PartialId, part_map: M2) -> (w: PartWriter<Compose<M, M2, W>>)
        where
            M: Copy,
        requires
            old(state).wf(),
            old(state).has_scope(self.spec_scope()),
            old(state).spec_scopes()[self.spec_scope() as int].spec_writer_count() < usize::MAX,
        ensures
            spec_writers_moved(*old(state), *final(state), self.spec_scope(), 1),
            w.spec_scope() == self.spec_scope(),
            w.spec_path() == match id@ {
                Some(s) => self.spec_path().push(s),
                None => self.spec_path(),
            },
            w.spec_include_partial() == self.spec_include_partial(),
            w.spec_map().outer == self.spec_map(),
            w.spec_map().inner == part_map,
    {
        state.inc_writer(self.scope);
        let path = id.child_path(&self.path);
        PartWriter {
            scope: self.scope,
            path,
            include_partial: self.include_partial,
            map: Compose::new(self.map, part_map),
        }
    }

    /// A wildcard part writer below this one.
    pub fn map_writer<V, W, M2>(&self, state: &mut Stateful<V>, part_map: M2) -> (w: PartWriter<Compose<M, M2, W>>)
        where
            M: Copy,
        requires
            old(state).wf(),
            old(state).has_scope(self.spec_scope()),
            old(state).spec_scopes()[self.spec_scope() as int].spec_writer_count() < usize::MAX,
        ensures
            spec_writers_moved(*old(state), *final(state), self.spec_scope(), 1),
            w.spec_scope() == self.spec_scope(),
            w.spec_path() == self.spec_path(),
            w.spec_include_partial() == self.spec_include_partial(),
            w.spec_map().outer == self.spec_map(),
            w.spec_map().inner == part_map,
    {
        self.part_writer::<V, W, M2>(state, PartialId::any(), part_map)
    }

    /// Turns the last live writer of the scope into a reader of the same
    /// part; while other writers live, the writer comes back unchanged.
    pub fn into_reader<V>(self, state: &mut Stateful<V>) -> (r: Result<PartReader<M>, PartWriter<M>>)
        requires
            old(state).wf(),
            old(state).has_scope(self.spec_scope()),
        ensures
            r is Ok <==> old(state).spec_scopes()[self.spec_scope() as int].spec_writer_count() == 1,
            r is Ok ==> spec_writers_moved(*old(state), *final(state), self.spec_scope(), -1)
                && r->Ok_0.spec_map() == self.spec_map(),
            r is Err ==> r->Err_0 == self && *final(state) == *old(state),
    {
        if state.scope(self.scope).writer_count() == 1 {
            state.dec_writer(self.scope);
            Ok(PartReader::new(self.map))
        } else {
            Err(self)
        }
    }

    /// A subscription to this writer's data changes: events of its scope
    /// from now on, with a data effect, that concern its path.
    pub fn modifies<V>(&self, state: &Stateful<V>) -> (w: Watcher<M>)
        where
            M: Copy,
        requires
            state.has_scope(self.spec_scope()),
        ensures
            w.spec_scope() == self.spec_scope(),
            w.spec_path() == self.spec_path(),
            w.spec_include_partial() == self.spec_include_partial(),
            w.spec_data_only(),
            w.spec_cursor() == state.spec_scopes()[self.spec_scope() as int].spec_events().len(),
            w.spec_map() == self.spec_map(),
    {
        let cursor = state.scope(self.scope).events_len();
        Watcher::new(self.scope, self.path.clone_path(), self.include_partial, true, cursor, self.map)
    }

    /// A subscription to all of this writer's changes, framework-only ones
    /// included.
    pub fn raw_modifies<V>(&self, state: &Stateful<V>) -> (w: Watcher<M>)
        where
            M: Copy,
        requires
            state.has_scope(self.spec_scope()),
        ensures
            w.spec_scope() == self.spec_scope(),
            w.spec_path() == self.spec_path(),
            w.spec_include_partial() == self.spec_include_partial(),
            !w.spec_data_only(),
            w.spec_cursor() == state.spec_scopes()[self.spec_scope() as int].spec_events().len(),
            w.spec_map() == self.spec_map(),
    {
        let cursor = state.scope(self.scope).events_len();
        Watcher::new(self.scope, self.path.clone_path(), self.include_partial, false, cursor, self.map)
    }
}

/// A writer of a part of a root state with a notification scope of its
/// own: its writes notify its own subscribers only, though they land in the
/// root value.
pub struct SplittedWriter<M> {
    scope: usize,
    map: M,
}

impl<M> SplittedWriter<M> {
    pub closed spec fn spec_scope(&self) -> usize {
        self.scope
    }

    pub closed spec fn spec_map(&self) -> M {
        self.map
    }

    /// The part this writer writes, as it is now.
    pub fn read<'a, V, U>(&self, state: &'a Stateful<V>) -> (r: &'a U)
        where
            M: PartMap<V, U>,
        requires
            self.spec_map().has_part(state.spec_value()),
        ensures
            *r == self.spec_map().part(state.spec_value()),
    {
        self.map.part_ref(state.value())
    }

    /// The projection this writer writes through.
    pub fn map_fn(&self) -> (r: M)
        where
            M: Copy,
        ensures
            r == self.spec_map(),
    {
        self.map
    }

    fn split_ref<V>(&self, state: &mut Stateful<V>, effect: ModifyEffect) -> (w: WriteRef<M>)
        where
            M: Copy,
        requires
            old(state).wf(),
            old(state).has_scope(self.spec_scope()),
            old(state).spec_borrow().can_write(),
        ensures
            final(state).wf(),
            final(state).spec_value() == old(state).spec_value(),
            final(state).spec_borrow() == BorrowState::Exclusive,
            final(state).spec_scopes() == old(state).spec_scopes(),
            final(state).spec_requests() == old(state).spec_requests(),
            w.spec_scope() == self.spec_scope(),
            w.spec_path().len() == 0,
            w.spec_effect() == effect,
            !w.spec_modified(),
            w.spec_map() == self.spec_map(),
    {
        let w = state.open_write(self.scope, PartialPath::new(), effect, self.map);
        proof {
            assert(w.spec_path() =~= Seq::<Seq<char>>::empty());
        }
        w
    }

    /// A write guard on the part, notifying this writer's own scope of data
    /// and framework changes.
    pub fn write<V>(&self, state: &mut Stateful<V>) -> (w: WriteRef<M>)
        where
            M: Copy,
        requires
            old(state).wf(),
            old(state).has_scope(self.spec_scope()),
            old(state).spec_borrow().can_write(),
        ensures
            final(state).wf(),
            final(state).spec_value() == old(state).spec_value(),
            final(state).spec_borrow() == BorrowState::Exclusive,
            final(state).spec_scopes() == old(state).spec_scopes(),
            final(state).spec_requests() == old(state).spec_requests(),
            w.spec_scope() == self.spec_scope(),
            w.spec_path().len() == 0,
            w.spec_effect() == ModifyEffect::spec_both(),
            !w.spec_modified(),
            w.spec_map() == self.spec_map(),
    {
        self.split_ref(state, ModifyEffect::both())
    }

    /// A write guard on the part, notifying data observers only.
    pub fn silent<V>(&self, state: &mut Stateful<V>) -> (w: WriteRef<M>)
        where
            M: Copy,
        requires
            old(state).wf(),
            old(state).has_scope(self.spec_scope()),
            old(state).spec_borrow().can_write(),
        ensures
            final(state).wf(),
            final(state).spec_value() == old(state).spec_value(),
            final(state).spec_borrow() == BorrowState::Exclusive,
            final(state).spec_scopes() == old(state).spec_scopes(),
            final(state).spec_requests() == old(state).spec_requests(),
            w.spec_scope() == self.spec_scope(),
            w.spec_path().len() == 0,
            w.spec_effect() == ModifyEffect::spec_data(),
            !w.spec_modified(),
            w.spec_map() == self.spec_map(),
    {
        self.split_ref(state, ModifyEffect::data_only())
    }

    /// A write guard on the part, notifying the framework only.
    pub fn shallow<V>(&self, state: &mut Stateful<V>) -> (w: WriteRef<M>)
        where
            M: Copy,
        requires
            old(state).wf(),
            old(state).has_scope(self.spec_scope()),
            old(state).spec_borrow().can_write(),
        ensures
            final(state).wf(),
            final(state).spec_value() == old(state).spec_value(),
            final(state).spec_borrow() == BorrowState::Exclusive,
            final(state).spec_scopes() == old(state).spec_scopes(),
            final(state).spec_requests() == old(state).spec_requests(),
            w.spec_scope() == self.spec_scope(),
            w.spec_path().len() == 0,
            w.spec_effect() == ModifyEffect::spec_framework(),
            !w.spec_modified(),
            w.spec_map() == self.spec_map(),
    {
        self.split_ref(state, ModifyEffect::framework_only())
    }

    /// Another handle on the same part and scope; the scope counts one more
    /// live writer.
    pub fn clone_writer<V>(&self, state: &mut Stateful<V>) -> (w: SplittedWriter<M>)
        where
            M: Copy,
        requires
            old(state).wf(),
            old(state).has_scope(self.spec_scope()),
            old(state).spec_scopes()[self.spec_scope() as int].spec_writer_count() < usize::MAX,
        ensures
            spec_writers_moved(*old(state), *final(state), self.spec_scope(), 1),
            w.spec_scope() == self.spec_scope(),
            w.spec_map() == self.spec_map(),
    {
        state.inc_writer(self.scope);
        SplittedWriter { scope: self.scope, map: self.map }
    }

    /// Drops this handle; the scope counts one live writer less.
    pub fn release<V>(self, state: &mut Stateful<V>)
        requires
            old(state).wf(),
            old(state).has_scope(self.spec_scope()),
            old(state).spec_scopes()[self.spec_scope() as int].spec_writer_count() > 0,
        ensures
            spec_writers_moved(*old(state), *final(state), self.spec_scope(), -1),
    {
        state.dec_writer(self.scope);
    }

    /// Turns the last live writer of this scope into a reader of the same
    /// part; while other writers live, the writer comes back unchanged.
    pub fn into_reader<V>(self, state: &mut Stateful<V>) -> (r: Result<PartReader<M>, SplittedWriter<M>>)
        requires
            old(state).wf(),
            old(state).has_scope(self.spec_scope()),
        ensures
            r is Ok <==> old(state).spec_scopes()[self.spec_scope() as int].spec_writer_count() == 1,
            r is Ok ==> spec_writers_moved(*old(state), *final(state), self.spec_scope(), -1)
                && r->Ok_0.spec_map() == self.spec_map(),
            r is Err ==> r->Err_0 == self && *final(state) == *old(state),
    {
        if state.scope(self.scope).writer_count() == 1 {
            state.dec_writer(self.scope);
            Ok(PartReader::new(self.map))
        } else {
            Err(self)
        }
    }

    /// A subscription to this writer's data changes: events of its own
    /// scope from now on, with a data effect.
    pub fn modifies<V>(&self, state: &Stateful<V>) -> (w: Watcher<M>)
        where
            M: Copy,
        requires
            state.has_scope(self.spec_scope()),
        ensures
            w.spec_scope() == self.spec_scope(),
            w.spec_path().len() == 0,
            w.spec_data_only(),
            w.spec_cursor() == state.spec_scopes()[self.spec_scope() as int].spec_events().len(),
            w.spec_map() == self.spec_map(),
    {
        let cursor = state.scope(self.scope).events_len();
        let w = Watcher::new(self.scope, PartialPath::new(), false, true, cursor, self.map);
        proof {
            assert(w.spec_path() =~= Seq::<Seq<char>>::empty());
        }
        w
    }

    /// A subscription to all of this writer's changes, framework-only ones
    /// included.
    pub fn raw_modifies<V>(&self, state: &Stateful<V>) -> (w: Watcher<M>)
        where
            M: Copy,
        requires
            state.has_scope(self.spec_scope()),
        ensures
            w.spec_scope() == self.spec_scope(),
            w.spec_path().len() == 0,
            !w.spec_data_only(),
            w.spec_cursor() == state.spec_scopes()[self.spec_scope() as int].spec_events().len(),
            w.spec_map() == self.spec_map(),
    {
        let cursor = state.scope(self.scope).events_len();
        let w = Watcher::new(self.scope, PartialPath::new(), false, false, cursor, self.map);
        proof {
            assert(w.spec_path() =~= Seq::<Seq<char>>::empty());
        }
        w
    }
}

/// A writer of either derivation, behind one type: a part writer, in the
/// root's scope, or a split writer, in a scope of its own. Every operation
/// goes to the variant that is there.
pub enum Writer<M> {
    Part(PartWriter<M>),
    Split(SplittedWriter<M>),
}

impl<M> Writer<M> {
    pub open spec fn spec_scope(&self) -> usize {
        match self {
            Writer::Part(w) => w.spec_scope(),
            Writer::Split(w) => w.spec_scope(),
        }
    }

    /// The path events of this writer carry: a split writer's is empty.
    pub open spec fn spec_path(&self) -> Seq<Seq<char>> {
        match self {
            Writer::Part(w) => w.spec_path(),
            Writer::Split(w) => Seq::empty(),
        }
    }

    pub open spec fn spec_map(&self) -> M {
        match self {
            Writer::Part(w) => w.spec_map(),
            Writer::Split(w) => w.spec_map(),
        }
    }

    /// The part this writer writes, as it is now.
    pub fn read<'a, V, U>(&self, state: &'a Stateful<V>) -> (r: &'a U)
        where
            M: PartMap<V, U>,
        requires
            self.spec_map().has_part(state.spec_value()),
        ensures
            *r == self.spec_map().part(state.spec_value()),
    {
        match self {
            Writer::Part(w) => w.read(state),
            Writer::Split(w) => w.read(state),
        }
    }

    fn write_with<V>(&self, state: &mut Stateful<V>, effect: ModifyEffect) -> (w: WriteRef<M>)
        where
            M: Copy,
        requires
            old(state).wf(),
            old(state).has_scope(self.spec_scope()),
            old(state).spec_borrow().can_write(),
        ensures
            final(state).wf(),
            final(state).spec_value() == old(state).spec_value(),
            final(state).spec_borrow() == BorrowState::Exclusive,
            final(state).spec_scopes() == old(state).spec_scopes(),
            final(state).spec_requests() == old(state).spec_requests(),
            w.spec_scope() == self.spec_scope(),
            w.spec_path() == self.spec_path(),
            w.spec_effect() == effect,
            !w.spec_modified(),
            w.spec_map() == self.spec_map(),
    {
        match self {
            Writer::Part(w) => w.write_ref(state, effect),
            Writer::Split(w) => w.split_ref(state, effect),
        }
    }

    /// A write guard notifying data and framework observers.
    pub fn write<V>(&self, state: &mut Stateful<V>) -> (w: WriteRef<M>)
        where
            M: Copy,
        requires
            old(state).wf(),
            old(state).has_scope(self.spec_scope()),
            old(state).spec_borrow().can_write(),
        ensures
            final(state).wf(),
            final(state).spec_value() == old(state).spec_value(),
            final(state).spec_borrow() == BorrowState::Exclusive,
            final(state).spec_scopes() == old(state).spec_scopes(),
            final(state).spec_requests() == old(state).spec_requests(),
            w.spec_scope() == self.spec_scope(),
            w.spec_path() == self.spec_path(),
            w.spec_effect() == ModifyEffect::spec_both(),
            !w.spec_modified(),
            w.spec_map() == self.spec_map(),
    {
        self.write_with(state, ModifyEffect::both())
    }

    /// A write guard notifying data observers only.
    pub fn silent<V>(&self, state: &mut Stateful<V>) -> (w: WriteRef<M>)
        where
            M: Copy,
        requires
            old(state).wf(),
            old(state).has_scope(self.spec_scope()),
            old(state).spec_borrow().can_write(),
        ensures
            final(state).wf(),
            final(state).spec_value() == old(state).spec_value(),
            final(state).spec_borrow() == BorrowState::Exclusive,
            final(state).spec_scopes() == old(state).spec_scopes(),
            final(state).spec_requests() == old(state).spec_requests(),
            w.spec_scope() == self.spec_scope(),
            w.spec_path() == self.spec_path(),
            w.spec_effect() == ModifyEffect::spec_data(),
            !w.spec_modified(),
            w.spec_map() == self.spec_map(),
    {
        self.write_with(state, ModifyEffect::data_only())
    }

    /// A write guard notifying the framework only.
    pub fn shallow<V>(&self, state: &mut Stateful<V>) -> (w: WriteRef<M>)
        where
            M: Copy,
        requires
            old(state).wf(),
            old(state).has_scope(self.spec_scope()),
            old(state).spec_borrow().can_write(),
        ensures
            final(state).wf(),
            final(state).spec_value() == old(state).spec_value(),
            final(state).spec_borrow() == BorrowState::Exclusive,
            final(state).spec_scopes() == old(state).spec_scopes(),
            final(state).spec_requests() == old(state).spec_requests(),
            w.spec_scope() == self.spec_scope(),
            w.spec_path() == self.spec_path(),
            w.spec_effect() == ModifyEffect::spec_framework(),
            !w.spec_modified(),
            w.spec_map() == self.spec_map(),
    {
        self.write_with(state, ModifyEffect::framework_only())
    }

    /// Another handle of the same variant, part and scope; the scope counts
    /// one more live writer.
    pub fn clone_writer<V>(&self, state: &mut Stateful<V>) -> (w: Writer<M>)
        where
            M: Copy,
        requires
            old(state).wf(),
            old(state).has_scope(self.spec_scope()),
            old(state).spec_scopes()[self.spec_scope() as int].spec_writer_count() < usize::MAX,
        ensures
            spec_writers_moved(*old(state), *final(state), self.spec_scope(), 1),
            w.spec_scope() == self.spec_scope(),
            w.spec_path() == self.spec_path(),
            w.spec_map() == self.spec_map(),
    {
        match self {
            Writer::Part(w) => Writer::Part(w.clone_writer(state)),
            Writer::Split(w) => Writer::Split(w.clone_writer(state)),
        }
    }

    /// Drops this handle; the scope counts one live writer less.
    pub fn release<V>(self, state: &mut Stateful<V>)
        requires
            old(state).wf(),
            old(state).has_scope(self.spec_scope()),
            old(state).spec_scopes()[self.spec_scope() as int].spec_writer_count() > 0,
        ensures
            spec_writers_moved(*old(state), *final(state), self.spec_scope(), -1),
    {
        match self {
            Writer::Part(w) => w.release(state),
            Writer::Split(w) => w.release(state),
        }
    }

    /// Turns the last live writer of the scope into a reader; while other
    /// writers live, the writer comes back unchanged.
    pub fn into_reader<V>(self, state: &mut Stateful<V>) -> (r: Result<PartReader<M>, Writer<M>>)
        requires
            old(state).wf(),
            old(state).has_scope(self.spec_scope()),
        ensures
            r is Ok <==> old(state).spec_scopes()[self.spec_scope() as int].spec_writer_count() == 1,
            r is Ok ==> spec_writers_moved(*old(state), *final(state), self.spec_scope(), -1)
                && r->Ok_0.spec_map() == self.spec_map(),
            r is Err ==> r->Err_0 == self && *final(state) == *old(state),
    {
        match self {
            Writer::Part(w) => match w.into_reader(state) {
                Ok(r) => Ok(r),
                Err(w) => Err(Writer::Part(w)),
            },
            Writer::Split(w) => match w.into_reader(state) {
                Ok(r) => Ok(r),
                Err(w) => Err(Writer::Split(w)),
            },
        }
    }

    /// A subscription to this writer's data changes.
    pub fn modifies<V>(&self, state: &Stateful<V>) -> (w: Watcher<M>)
        where
            M: Copy,
        requires
            state.has_scope(self.spec_scope()),
        ensures
            w.spec_scope() == self.spec_scope(),
            w.spec_path() == self.spec_path(),
            w.spec_data_only(),
            w.spec_cursor() == state.spec_scopes()[self.spec_scope() as int].spec_events().len(),
            w.spec_map() == self.spec_map(),
    {
        match self {
            Writer::Part(w) => w.modifies(state),
            Writer::Split(w) => w.modifies(state),
        }
    }

    /// A subscription to all of this writer's changes.
    pub fn raw_modifies<V>(&self, state: &Stateful<V>) -> (w: Watcher<M>)
        where
            M: Copy,
        requires
            state.has_scope(self.spec_scope()),
        ensures
            w.spec_scope() == self.spec_scope(),
            w.spec_path() == self.spec_path(),
            !w.spec_data_only(),
            w.spec_cursor() == state.spec_scopes()[self.spec_scope() as int].spec_events().len(),
            w.spec_map() == self.spec_map(),
    {
        match self {
            Writer::Part(w) => w.raw_modifies(state),
            Writer::Split(w) => w.raw_modifies(state),
        }
    }
}

impl Writer<WholeValue> {
    /// A root state holding `value`, and a writer of all of it.
    pub fn value<V>(value: V) -> (r: (Stateful<V>, Writer<WholeValue>))
        ensures
            r.0.wf(),
            r.0.spec_value() == value,
            r.0.spec_borrow() == BorrowState::Unborrowed,
            r.0.spec_scopes().len() == 1,
            r.0.spec_scopes()[ROOT_SCOPE as int].spec_writer_count() == 2,
            r.1.spec_scope() == ROOT_SCOPE,
            r.1.spec_path().len() == 0,
    {
        let mut state = Stateful::new(value);
        let w = state.map_writer(WholeValue);
        (state, Writer::Part(w))
    }
}

} // verus!
