//! Writer paths: the segments from the root to a writer, held in a
//! `SmallVec` with room for one segment inline.
use smallvec::SmallVec;
use vstd::prelude::*;

verus! {

/// The segments from the root to a writer, root first.
#[verifier::external_body]
pub struct PartialPath {
    segments: SmallVec<[String; 1]>,
}

/// What a path holds: its segments, as character sequences.
pub uninterp spec fn path_segments(p: PartialPath) -> Seq<Seq<char>>;

impl PartialPath {
    /// Relies on `SmallVec::new`: an empty vector.
    #[verifier::external_body]
    pub(crate) fn new() -> (r: PartialPath)
        ensures
            path_segments(r) == Seq::<Seq<char>>::empty(),
    {
        PartialPath { segments: SmallVec::new() }
    }

    /// Relies on `SmallVec::len`: the number of elements.
    #[verifier::external_body]
    pub(crate) fn len(&self) -> (r: usize)
        ensures
            r == path_segments(*self).len(),
    {
        self.segments.len()
    }

    /// Relies on indexing a `SmallVec` through its slice: the element at `i`.
    #[verifier::external_body]
    pub(crate) fn segment(&self, i: usize) -> (r: &String)
        requires
            i < path_segments(*self).len(),
        ensures
            r@ == path_segments(*self)[i as int],
    {
        &self.segments[i]
    }

    /// Relies on `SmallVec::push`: the element is appended.
    #[verifier::external_body]
    pub(crate) fn push(&mut self, s: String)
        ensures
            path_segments(*final(self)) == path_segments(*old(self)).push(s@),
    {
        self.segments.push(s)
    }

    /// Relies on `SmallVec`'s `Clone`, which builds a vector of clones of
    /// the elements.
    #[verifier::external_body]
    pub(crate) fn clone_path(&self) -> (r: PartialPath)
        ensures
            path_segments(r) == path_segments(*self),
    {
        PartialPath { segments: self.segments.clone() }
    }

    /// The segments, as strings.
    pub fn to_vec(&self) -> (r: Vec<String>)
        ensures
            r@.map_values(|s: String| s@) == path_segments(*self),
    {
        let mut r: Vec<String> = Vec::new();
        let mut i: usize = 0;
        let n = self.len();
        while i < n
            invariant
                n == path_segments(*self).len(),
                i <= n,
                r@.map_values(|s: String| s@) == path_segments(*self).subrange(0, i as int),
            decreases n - i,
        {
            let seg = self.segment(i).clone();
            let ghost before = r@;
            r.push(seg);
            proof {
                assert(r@ == before.push(seg));
                assert(r@.map_values(|s: String| s@) =~= before.map_values(|s: String| s@).push(seg@));
                assert(path_segments(*self).subrange(0, i + 1) =~= path_segments(*self).subrange(0, i as int).push(
                    path_segments(*self)[i as int],
                ));
            }
            i = i + 1;
        }
        proof {
            assert(path_segments(*self).subrange(0, n as int) =~= path_segments(*self));
        }
        r
    }
}

} // verus!
