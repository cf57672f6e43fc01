//! Reading a part of a root state through any handle: readers, writers and
//! watchers alike.
use vstd::prelude::*;
use crate::part_map::PartMap;
use crate::state::Stateful;
use crate::watcher::{PartReader, Watcher};
use crate::writer::{PartWriter, SplittedWriter};

verus! {

/// A handle that reads a part `U` of a root state of `V`.
pub trait StateReader<V, U> {
    /// Whether the handle can read its part of `v`.
    spec fn spec_readable(&self, v: V) -> bool;

    /// The part of `v` the handle reads.
    spec fn spec_read(&self, v: V) -> U;

    fn read_value<'a>(&self, state: &'a Stateful<V>) -> (r: &'a U)
        requires
            self.spec_readable(state.spec_value()),
        ensures
            *r == self.spec_read(state.spec_value()),
    ;
}

/// A writer's projection, used for reading only.
#[derive(Clone, Copy, Debug)]
pub struct WriterMapReaderFn<M>(pub M);

impl<V, U, M: PartMap<V, U>> PartMap<V, U> for WriterMapReaderFn<M> {
    open spec fn has_part(&self, v: V) -> bool {
        self.0.has_part(v)
    }

    open spec fn part(&self, v: V) -> U {
        self.0.part(v)
    }

    open spec fn put(&self, v: V, u: U) -> V {
        self.0.put(v, u)
    }

    proof fn lemma_part_of_put(&self, v: V, u: U) {
        self.0.lemma_part_of_put(v, u);
    }

    proof fn lemma_put_part(&self, v: V) {
        self.0.lemma_put_part(v);
    }

    fn check(&self, v: &V) -> (r: bool) {
        self.0.check(v)
    }

    fn part_ref<'a>(&self, v: &'a V) -> (r: &'a U) {
        self.0.part_ref(v)
    }

    fn part_mut<'a>(&self, v: &'a mut V) -> (r: &'a mut U) {
        self.0.part_mut(v)
    }
}

impl<V, U, M: PartMap<V, U>> StateReader<V, U> for PartReader<M> {
    open spec fn spec_readable(&self, v: V) -> bool {
        self.spec_map().has_part(v)
    }

    open spec fn spec_read(&self, v: V) -> U {
        self.spec_map().part(v)
    }

    fn read_value<'a>(&self, state: &'a Stateful<V>) -> (r: &'a U) {
        self.read(state)
    }
}

impl<V, U, M: PartMap<V, U>> StateReader<V, U> for PartWriter<M> {
    open spec fn spec_readable(&self, v: V) -> bool {
        self.spec_map().has_part(v)
    }

    open spec fn spec_read(&self, v: V) -> U {
        self.spec_map().part(v)
    }

    fn read_value<'a>(&self, state: &'a Stateful<V>) -> (r: &'a U) {
        self.read(state)
    }
}

impl<V, U, M: PartMap<V, U>> StateReader<V, U> for SplittedWriter<M> {
    open spec fn spec_readable(&self, v: V) -> bool {
        self.spec_map().has_part(v)
    }

    open spec fn spec_read(&self, v: V) -> U {
        self.spec_map().part(v)
    }

    fn read_value<'a>(&self, state: &'a Stateful<V>) -> (r: &'a U) {
        self.read(state)
    }
}

impl<V, U, M: PartMap<V, U>> StateReader<V, U> for Watcher<M> {
    open spec fn spec_readable(&self, v: V) -> bool {
        self.spec_map().has_part(v)
    }

    open spec fn spec_read(&self, v: V) -> U {
        self.spec_map().part(v)
    }

    fn read_value<'a>(&self, state: &'a Stateful<V>) -> (r: &'a U) {
        self.read(state)
    }
}

impl<M> PartWriter<M> {
    /// A reader of the same part; the writer stays.
    pub fn clone_reader(&self) -> (r: PartReader<WriterMapReaderFn<M>>)
        where
            M: Copy,
        ensures
            r.spec_map().0 == self.spec_map(),
    {
        PartReader::new(WriterMapReaderFn(self.map_fn()))
    }
}

impl<M> SplittedWriter<M> {
    /// A reader of the same part; the writer stays.
    pub fn clone_reader(&self) -> (r: PartReader<WriterMapReaderFn<M>>)
        where
            M: Copy,
        ensures
            r.spec_map().0 == self.spec_map(),
    {
        PartReader::new(WriterMapReaderFn(self.map_fn()))
    }
}

} // verus!
