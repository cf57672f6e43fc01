//! Readers of a part of a root state, and watchers: a reader together with
//! a subscription to the events of a scope.
use vstd::prelude::*;
use crate::effect::{ModifyEffect, ModifyInfo, spec_path_matches};
use crate::path::{PartialPath, path_segments};
use crate::notifier::{event_view, events_view};
use crate::part_map::{Compose, PartMap, WholeValue};
use crate::state::{ROOT_SCOPE, Stateful};

verus! {

/// Whether a subscriber at `scope_path` hears `event`. A subscriber at the
/// root path hears every event of its scope; any other hears those whose
/// path matches its own. A data-only subscriber skips framework-only events.
pub open spec fn spec_hears(
    scope_path: Seq<Seq<char>>,
    include_partial: bool,
    data_only: bool,
    event: (ModifyEffect, Seq<Seq<char>>),
) -> bool {
    &&& (scope_path.len() == 0 || spec_path_matches(event.1, scope_path, include_partial))
    &&& (!data_only || event.0.data)
}

/// A reader of the part of a root state that `map` projects.
pub struct PartReader<M> {
    map: M,
}

impl<M> PartReader<M> {
    pub closed spec fn spec_map(&self) -> M {
        self.map
    }

    pub fn new(map: M) -> (r: PartReader<M>)
        ensures
            r.spec_map() == map,
    {
        PartReader { map }
    }

    /// The part, as it is now.
    pub fn read<'a, V, U>(&self, state: &'a Stateful<V>) -> (r: &'a U)
        where
            M: PartMap<V, U>,
        requires
            self.spec_map().has_part(state.spec_value()),
        ensures
            *r == self.spec_map().part(state.spec_value()),
    {
        self.map.part_ref(state.value())
    }

    /// Another reader of the same part.
    pub fn clone_reader(&self) -> (r: PartReader<M>)
        where
            M: Copy,
        ensures
            r.spec_map() == self.spec_map(),
    {
        PartReader { map: self.map }
    }

    /// A reader of a part of this reader's part.
    pub fn part_reader<W, M2>(&self, map: M2) -> (r: PartReader<Compose<M, M2, W>>)
        where
            M: Copy,
        ensures
            r.spec_map().outer == self.spec_map(),
            r.spec_map().inner == map,
    {
        PartReader { map: Compose::new(self.map, map) }
    }
}

/// A reader of a part of a root state, together with a subscription to the
/// events of one scope. The cursor marks the events already taken.
pub struct Watcher<M> {
    scope: usize,
    path: PartialPath,
    include_partial: bool,
    data_only: bool,
    cursor: usize,
    map: M,
}

impl<M> Watcher<M> {
    pub closed spec fn spec_scope(&self) -> usize {
        self.scope
    }

    pub closed spec fn spec_path(&self) -> Seq<Seq<char>> {
        path_segments(self.path)
    }

    pub closed spec fn spec_include_partial(&self) -> bool {
        self.include_partial
    }

    pub closed spec fn spec_data_only(&self) -> bool {
        self.data_only
    }

    pub closed spec fn spec_cursor(&self) -> nat {
        self.cursor as nat
    }

    pub closed spec fn spec_map(&self) -> M {
        self.map
    }

    /// Whether this watcher hears `event`.
    pub open spec fn hears(&self, event: (ModifyEffect, Seq<Seq<char>>)) -> bool {
        spec_hears(self.spec_path(), self.spec_include_partial(), self.spec_data_only(), event)
    }

    pub fn new(scope: usize, path: PartialPath, include_partial: bool, data_only: bool, cursor: usize, map: M) -> (w: Watcher<M>)
        ensures
            w.spec_scope() == scope,
            w.spec_path() == path_segments(path),
            w.spec_include_partial() == include_partial,
            w.spec_data_only() == data_only,
            w.spec_cursor() == cursor,
            w.spec_map() == map,
    {
        Watcher { scope, path, include_partial, data_only, cursor, map }
    }

    /// The watched part, as it is now.
    pub fn read<'a, V, U>(&self, state: &'a Stateful<V>) -> (r: &'a U)
        where
            M: PartMap<V, U>,
        requires
            self.spec_map().has_part(state.spec_value()),
        ensures
            *r == self.spec_map().part(state.spec_value()),
    {
        self.map.part_ref(state.value())
    }

    /// Another watcher of the same part and events, from the same point on.
    pub fn clone_watcher(&self) -> (w: Watcher<M>)
        where
            M: Copy,
        ensures
            w.spec_scope() == self.spec_scope(),
            w.spec_path() == self.spec_path(),
            w.spec_include_partial() == self.spec_include_partial(),
            w.spec_data_only() == self.spec_data_only(),
            w.spec_cursor() == self.spec_cursor(),
            w.spec_map() == self.spec_map(),
    {
        Watcher::new(self.scope, self.path.clone_path(), self.include_partial, self.data_only, self.cursor, self.map)
    }

    /// A watcher of a part of the watched part. It hears the same events,
    /// framework-only ones included, whether or not they touched that part,
    /// from the same point on.
    pub fn part_watcher<W, M2>(&self, map: M2) -> (w: Watcher<Compose<M, M2, W>>)
        where
            M: Copy,
        ensures
            w.spec_scope() == self.spec_scope(),
            w.spec_path() == self.spec_path(),
            w.spec_include_partial() == self.spec_include_partial(),
            !w.spec_data_only(),
            w.spec_cursor() == self.spec_cursor(),
            w.spec_map() == Compose::<M, M2, W>::spec_new(self.spec_map(), map),
    {
        Watcher::new(
            self.scope,
            self.path.clone_path(),
            self.include_partial,
            false,
            self.cursor,
            Compose::new(self.map, map),
        )
    }

    /// Whether this watcher hears `event`.
    pub fn hears_event(&self, event: &ModifyInfo) -> (r: bool)
        ensures
            r == self.hears(event_view(*event)),
    {
        let path_ok = if self.path.len() == 0 {
            true
        } else {
            event.path_matches(&self.path, self.include_partial)
        };
        path_ok && (!self.data_only || event.effect.data)
    }

    /// Takes the events delivered to the scope since the last take that
    /// this watcher hears, oldest first.
    pub fn take_events<V>(&mut self, state: &Stateful<V>) -> (r: Vec<ModifyInfo>)
        requires
            state.has_scope(old(self).spec_scope()),
            old(self).spec_cursor() <= state.spec_scopes()[old(self).spec_scope() as int].spec_events().len(),
        ensures
            events_view(r@) == state.spec_scopes()[old(self).spec_scope() as int].spec_events().subrange(
                old(self).spec_cursor() as int,
                state.spec_scopes()[old(self).spec_scope() as int].spec_events().len() as int,
            ).filter(|e: (ModifyEffect, Seq<Seq<char>>)| old(self).hears(e)),
            final(self).spec_cursor() == state.spec_scopes()[old(self).spec_scope() as int].spec_events().len(),
            final(self).spec_scope() == old(self).spec_scope(),
            final(self).spec_path() == old(self).spec_path(),
            final(self).spec_include_partial() == old(self).spec_include_partial(),
            final(self).spec_data_only() == old(self).spec_data_only(),
            final(self).spec_map() == old(self).spec_map(),
    {
        let info = state.scope(self.scope);
        let n = info.events_len();
        let start = self.cursor;
        let ghost evs = info.spec_events();
        let ghost pred = |e: (ModifyEffect, Seq<Seq<char>>)| old(self).hears(e);
        let mut r: Vec<ModifyInfo> = Vec::new();
        let mut i: usize = start;
        proof {
            reveal(Seq::filter);
            assert(evs.subrange(start as int, start as int) =~= Seq::empty());
            assert(events_view(r@) =~= Seq::empty());
        }
        while i < n
            invariant
                start <= i <= n,
                n == evs.len(),
                evs == info.spec_events(),
                *self == *old(self),
                start == old(self).spec_cursor(),
                pred == (|e: (ModifyEffect, Seq<Seq<char>>)| old(self).hears(e)),
                events_view(r@) == evs.subrange(start as int, i as int).filter(pred),
            decreases n - i,
        {
            let e = info.event(i);
            let heard = self.hears_event(e);
            proof {
                assert(event_view(*e) == evs[i as int]);
                assert(heard == old(self).hears(evs[i as int]));
                assert(pred(evs[i as int]) == old(self).hears(evs[i as int]));
            }
            let ghost before = r@;
            if heard {
                let c = e.clone_info();
                r.push(c);
                proof {
                    assert(r@ == before.push(c));
                    assert(event_view(c) == evs[i as int]);
                    assert(events_view(r@) =~= events_view(before).push(evs[i as int]));
                }
            }
            proof {
                reveal(Seq::filter);
                let sub = evs.subrange(start as int, i + 1);
                assert(sub.drop_last() =~= evs.subrange(start as int, i as int));
                assert(sub.last() == evs[i as int]);
                assert(pred(evs[i as int]) == heard);
                assert(sub.filter(pred) == if pred(sub.last()) {
                    sub.drop_last().filter(pred).push(sub.last())
                } else {
                    sub.drop_last().filter(pred)
                });
            }
            i = i + 1;
        }
        self.cursor = n;
        r
    }
}

impl<V> Stateful<V> {
    /// A subscription to the root's data changes: every event of the root
    /// scope from now on with a data effect, part writers' included.
    pub fn modifies(&self) -> (w: Watcher<WholeValue>)
        requires
            self.wf(),
        ensures
            w.spec_scope() == ROOT_SCOPE,
            w.spec_path().len() == 0,
            w.spec_data_only(),
            w.spec_cursor() == self.spec_scopes()[ROOT_SCOPE as int].spec_events().len(),
    {
        let cursor = self.scope(ROOT_SCOPE).events_len();
        let w = Watcher::new(ROOT_SCOPE, PartialPath::new(), false, true, cursor, WholeValue);
        proof {
            assert(w.spec_path() =~= Seq::<Seq<char>>::empty());
        }
        w
    }

    /// A subscription to all of the root's changes, framework-only ones
    /// included.
    pub fn raw_modifies(&self) -> (w: Watcher<WholeValue>)
        requires
            self.wf(),
        ensures
            w.spec_scope() == ROOT_SCOPE,
            w.spec_path().len() == 0,
            !w.spec_data_only(),
            w.spec_cursor() == self.spec_scopes()[ROOT_SCOPE as int].spec_events().len(),
    {
        let cursor = self.scope(ROOT_SCOPE).events_len();
        let w = Watcher::new(ROOT_SCOPE, PartialPath::new(), false, false, cursor, WholeValue);
        proof {
            assert(w.spec_path() =~= Seq::<Seq<char>>::empty());
        }
        w
    }

    /// A reader of the part of the value that `map` projects.
    pub fn part_reader<U, M: PartMap<V, U>>(&self, map: M) -> (r: PartReader<M>)
        ensures
            r.spec_map() == map,
    {
        PartReader::new(map)
    }
}

} // verus!
