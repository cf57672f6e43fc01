//! Projections from a whole value to one of its parts. A projection hands
//! out a reference into the value itself, never a copy, so that writes
//! through it land in the whole.
use std::marker::PhantomData;
use vstd::prelude::*;

verus! {

/// A projection of a `V` onto a part of type `U`.
pub trait PartMap<V, U> {
    /// Whether `v` has the part (an index may be out of range).
    spec fn has_part(&self, v: V) -> bool;

    /// The part of `v`.
    spec fn part(&self, v: V) -> U;

    /// `v` with its part replaced by `u`.
    spec fn put(&self, v: V, u: U) -> V;

    /// Reading a part just written gives what was written.
    proof fn lemma_part_of_put(&self, v: V, u: U)
        requires
            self.has_part(v),
        ensures
            self.has_part(self.put(v, u)),
            self.part(self.put(v, u)) == u,
    ;

    /// Writing back the part just read leaves the value unchanged.
    proof fn lemma_put_part(&self, v: V)
        requires
            self.has_part(v),
        ensures
            self.put(v, self.part(v)) == v,
    ;

    fn check(&self, v: &V) -> (r: bool)
        ensures
            r == self.has_part(*v),
    ;

    fn part_ref<'a>(&self, v: &'a V) -> (r: &'a U)
        requires
            self.has_part(*v),
        ensures
            *r == self.part(*v),
    ;

    fn part_mut<'a>(&self, v: &'a mut V) -> (r: &'a mut U)
        requires
            self.has_part(*old(v)),
        ensures
            *r == self.part(*old(v)),
            *final(v) == self.put(*old(v), *final(r)),
    ;
}

/// The whole value, as its own part.
#[derive(Clone, Copy, Debug)]
pub struct WholeValue;

impl<V> PartMap<V, V> for WholeValue {
    open spec fn has_part(&self, v: V) -> bool {
        true
    }

    open spec fn part(&self, v: V) -> V {
        v
    }

    open spec fn put(&self, v: V, u: V) -> V {
        u
    }

    proof fn lemma_part_of_put(&self, v: V, u: V) {
    }

    proof fn lemma_put_part(&self, v: V) {
    }

    fn check(&self, v: &V) -> (r: bool) {
        true
    }

    fn part_ref<'a>(&self, v: &'a V) -> (r: &'a V) {
        v
    }

    fn part_mut<'a>(&self, v: &'a mut V) -> (r: &'a mut V) {
        v
    }
}

/// The first field of a pair.
#[derive(Clone, Copy, Debug)]
pub struct FirstOfPair;

impl<A, B> PartMap<(A, B), A> for FirstOfPair {
    open spec fn has_part(&self, v: (A, B)) -> bool {
        true
    }

    open spec fn part(&self, v: (A, B)) -> A {
        v.0
    }

    open spec fn put(&self, v: (A, B), u: A) -> (A, B) {
        (u, v.1)
    }

    proof fn lemma_part_of_put(&self, v: (A, B), u: A) {
    }

    proof fn lemma_put_part(&self, v: (A, B)) {
    }

    fn check(&self, v: &(A, B)) -> (r: bool) {
        true
    }

    fn part_ref<'a>(&self, v: &'a (A, B)) -> (r: &'a A) {
        &v.0
    }

    fn part_mut<'a>(&self, v: &'a mut (A, B)) -> (r: &'a mut A) {
        &mut v.0
    }
}

/// The second field of a pair.
#[derive(Clone, Copy, Debug)]
pub struct SecondOfPair;

impl<A, B> PartMap<(A, B), B> for SecondOfPair {
    open spec fn has_part(&self, v: (A, B)) -> bool {
        true
    }

    open spec fn part(&self, v: (A, B)) -> B {
        v.1
    }

    open spec fn put(&self, v: (A, B), u: B) -> (A, B) {
        (v.0, u)
    }

    proof fn lemma_part_of_put(&self, v: (A, B), u: B) {
    }

    proof fn lemma_put_part(&self, v: (A, B)) {
    }

    fn check(&self, v: &(A, B)) -> (r: bool) {
        true
    }

    fn part_ref<'a>(&self, v: &'a (A, B)) -> (r: &'a B) {
        &v.1
    }

    fn part_mut<'a>(&self, v: &'a mut (A, B)) -> (r: &'a mut B) {
        &mut v.1
    }
}

/// The content of an `Option`, present only when it is `Some`.
#[derive(Clone, Copy, Debug)]
pub struct SomeValue;

impl<T> PartMap<Option<T>, T> for SomeValue {
    open spec fn has_part(&self, v: Option<T>) -> bool {
        v is Some
    }

    open spec fn part(&self, v: Option<T>) -> T {
        v->0
    }

    open spec fn put(&self, v: Option<T>, u: T) -> Option<T> {
        Some(u)
    }

    proof fn lemma_part_of_put(&self, v: Option<T>, u: T) {
    }

    proof fn lemma_put_part(&self, v: Option<T>) {
    }

    fn check(&self, v: &Option<T>) -> (r: bool) {
        v.is_some()
    }

    fn part_ref<'a>(&self, v: &'a Option<T>) -> (r: &'a T) {
        match v {
            Some(x) => x,
            None => unreached(),
        }
    }

    fn part_mut<'a>(&self, v: &'a mut Option<T>) -> (r: &'a mut T) {
        match v {
            Some(x) => x,
            None => unreached(),
        }
    }
}

/// The part `inner` of the part `outer`: a projection of a projection,
/// going through a middle value of type `W`.
#[derive(Debug)]
pub struct Compose<A, B, W> {
    pub outer: A,
    pub inner: B,
    pub middle: PhantomData<W>,
}

impl<A: Copy, B: Copy, W> Clone for Compose<A, B, W> {
    fn clone(&self) -> (r: Self)
        ensures
            r == *self,
    {
        *self
    }
}

impl<A: Copy, B: Copy, W> Copy for Compose<A, B, W> {

}

impl<A, B, W> Compose<A, B, W> {
    pub open spec fn spec_new(outer: A, inner: B) -> Compose<A, B, W> {
        Compose { outer, inner, middle: PhantomData }
    }

    pub fn new(outer: A, inner: B) -> (r: Compose<A, B, W>)
        ensures
            r == Self::spec_new(outer, inner),
    {
        Compose { outer, inner, middle: PhantomData }
    }
}

impl<V, W: 'static, U, A: PartMap<V, W>, B: PartMap<W, U>> PartMap<V, U> for Compose<A, B, W> {
    open spec fn has_part(&self, v: V) -> bool {
        self.outer.has_part(v) && self.inner.has_part(self.outer.part(v))
    }

    open spec fn part(&self, v: V) -> U {
        self.inner.part(self.outer.part(v))
    }

    open spec fn put(&self, v: V, u: U) -> V {
        self.outer.put(v, self.inner.put(self.outer.part(v), u))
    }

    proof fn lemma_part_of_put(&self, v: V, u: U) {
        let w = self.outer.part(v);
        self.inner.lemma_part_of_put(w, u);
        self.outer.lemma_part_of_put(v, self.inner.put(w, u));
    }

    proof fn lemma_put_part(&self, v: V) {
        let w = self.outer.part(v);
        self.inner.lemma_put_part(w);
        self.outer.lemma_put_part(v);
    }

    fn check(&self, v: &V) -> (r: bool) {
        if self.outer.check(v) {
            self.inner.check(self.outer.part_ref(v))
        } else {
            false
        }
    }

    fn part_ref<'a>(&self, v: &'a V) -> (r: &'a U) {
        self.inner.part_ref(self.outer.part_ref(v))
    }

    fn part_mut<'a>(&self, v: &'a mut V) -> (r: &'a mut U) {
        let w = self.outer.part_mut(v);
        self.inner.part_mut(w)
    }
}

} // verus!
