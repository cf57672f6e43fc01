//! Modify effects, partial identifiers, writer paths and the events that
//! carry them to subscribers.
use vstd::prelude::*;
use crate::path::{PartialPath, path_segments};

verus! {

/// The kind of change a write produced: a data change, a framework-only
/// change, both, or none. A small flag set, not a boolean, so that one
/// notification batch can carry the union of several writes.
#[derive(Clone, Copy, PartialEq, Eq, Structural, Debug)]
pub struct ModifyEffect {
    pub data: bool,
    pub framework: bool,
}

impl ModifyEffect {
    /// The flag value of the effect: `DATA` is 1, `FRAMEWORK` is 2.
    pub open spec fn spec_bits(self) -> int {
        (if self.data { 1int } else { 0int }) + (if self.framework { 2int } else { 0int })
    }

    pub open spec fn spec_union(self, other: ModifyEffect) -> ModifyEffect {
        ModifyEffect { data: self.data || other.data, framework: self.framework || other.framework }
    }

    pub open spec fn spec_is_empty(self) -> bool {
        !self.data && !self.framework
    }

    pub open spec fn spec_contains(self, other: ModifyEffect) -> bool {
        (other.data ==> self.data) && (other.framework ==> self.framework)
    }

    pub open spec fn spec_data() -> ModifyEffect {
        ModifyEffect { data: true, framework: false }
    }

    pub open spec fn spec_framework() -> ModifyEffect {
        ModifyEffect { data: false, framework: true }
    }

    pub open spec fn spec_both() -> ModifyEffect {
        ModifyEffect { data: true, framework: true }
    }

    /// No change at all.
    pub fn empty() -> (r: ModifyEffect)
        ensures
            r.spec_is_empty(),
            r.spec_bits() == 0,
    {
        ModifyEffect { data: false, framework: false }
    }

    /// The value changed.
    pub fn data_only() -> (r: ModifyEffect)
        ensures
            r == (ModifyEffect { data: true, framework: false }),
            r.spec_bits() == 1,
    {
        ModifyEffect { data: true, framework: false }
    }

    /// A framework-only touch: views refresh, data observers stay quiet.
    pub fn framework_only() -> (r: ModifyEffect)
        ensures
            r == (ModifyEffect { data: false, framework: true }),
            r.spec_bits() == 2,
    {
        ModifyEffect { data: false, framework: true }
    }

    /// Both a data and a framework change.
    pub fn both() -> (r: ModifyEffect)
        ensures
            r == (ModifyEffect { data: true, framework: true }),
            r.spec_bits() == 3,
    {
        ModifyEffect { data: true, framework: true }
    }

    pub fn bits(&self) -> (r: u8)
        ensures
            r == self.spec_bits(),
    {
        let d: u8 = if self.data { 1 } else { 0 };
        let f: u8 = if self.framework { 2 } else { 0 };
        d + f
    }

    /// The effect whose flag value is `bits`, ignoring bits above the two flags.
    pub fn from_bits(bits: u8) -> (r: ModifyEffect)
        ensures
            r.data == (bits % 2 == 1),
            r.framework == ((bits / 2) % 2 == 1),
            bits <= 3 ==> r.spec_bits() == bits as int,
    {
        let d = bits % 2 == 1;
        let f = (bits / 2) % 2 == 1;
        ModifyEffect { data: d, framework: f }
    }

    pub fn union(&self, other: &ModifyEffect) -> (r: ModifyEffect)
        ensures
            r == self.spec_union(*other),
    {
        ModifyEffect { data: self.data || other.data, framework: self.framework || other.framework }
    }

    /// The effect without the flags of `other`.
    pub fn remove(&self, other: &ModifyEffect) -> (r: ModifyEffect)
        ensures
            r.data == (self.data && !other.data),
            r.framework == (self.framework && !other.framework),
    {
        ModifyEffect { data: self.data && !other.data, framework: self.framework && !other.framework }
    }

    pub fn is_empty(&self) -> (r: bool)
        ensures
            r == self.spec_is_empty(),
    {
        !self.data && !self.framework
    }

    pub fn contains(&self, other: &ModifyEffect) -> (r: bool)
        ensures
            r == self.spec_contains(*other),
    {
        (!other.data || self.data) && (!other.framework || self.framework)
    }
}

/// `prefix` is an initial run of the segments of `path`.
pub open spec fn is_path_prefix(prefix: Seq<Seq<char>>, path: Seq<Seq<char>>) -> bool {
    prefix.len() <= path.len() && path.subrange(0, prefix.len() as int) == prefix
}

/// An event carrying `event_path` concerns a writer at `scope`: the same
/// path, or, when partial writers are included, a path below it.
pub open spec fn spec_path_matches(
    event_path: Seq<Seq<char>>,
    scope: Seq<Seq<char>>,
    include_partial: bool,
) -> bool {
    event_path == scope || (include_partial && is_path_prefix(scope, event_path))
}

/// Identifier for a partial writer. A wildcard id (`any`) makes the child
/// share the path of its parent.
#[derive(Clone, Debug)]
pub struct PartialId {
    id: Option<String>,
}

impl View for PartialId {
    type V = Option<Seq<char>>;

    closed spec fn view(&self) -> Option<Seq<char>> {
        match self.id {
            Some(s) => Some(s@),
            None => None,
        }
    }
}

impl PartialId {
    /// A named segment.
    pub fn new(str_id: String) -> (r: PartialId)
        ensures
            r@ == Some(str_id@),
    {
        PartialId { id: Some(str_id) }
    }

    /// A wildcard partial id, which equals its parent scope.
    pub fn any() -> (r: PartialId)
        ensures
            r@ is None,
    {
        PartialId { id: None }
    }

    pub fn is_any(&self) -> (r: bool)
        ensures
            r == (self@ is None),
    {
        self.id.is_none()
    }

    /// The path of a child with this id below `path`: one more segment, or
    /// the same path for a wildcard.
    pub fn child_path(&self, path: &PartialPath) -> (r: PartialPath)
        ensures
            path_segments(r) == match self@ {
                Some(s) => path_segments(*path).push(s),
                None => path_segments(*path),
            },
    {
        let mut r = path.clone_path();
        match &self.id {
            Some(s) => r.push(s.clone()),
            None => {},
        }
        r
    }
}

/// Whether two paths have the same segments.
pub fn paths_equal(a: &PartialPath, b: &PartialPath) -> (r: bool)
    ensures
        r == (path_segments(*a) == path_segments(*b)),
{
    if a.len() != b.len() {
        return false;
    }
    let r = path_starts_with(a, b);
    proof {
        assert(path_segments(*a).subrange(0, path_segments(*b).len() as int) =~= path_segments(*a));
    }
    r
}

/// Whether `prefix` is an initial run of the segments of `path`.
pub fn path_starts_with(path: &PartialPath, prefix: &PartialPath) -> (r: bool)
    ensures
        r == is_path_prefix(path_segments(*prefix), path_segments(*path)),
{
    let n = prefix.len();
    if n > path.len() {
        return false;
    }
    let mut i: usize = 0;
    while i < n
        invariant
            n == path_segments(*prefix).len() <= path_segments(*path).len(),
            i <= n,
            forall|k: int| 0 <= k < i ==> path_segments(*path)[k] == path_segments(*prefix)[k],
        decreases n - i,
    {
        if !path.segment(i).eq(prefix.segment(i)) {
            proof {
                assert(path_segments(*path).subrange(0, n as int)[i as int] != path_segments(*prefix)[i as int]);
            }
            return false;
        }
        i = i + 1;
    }
    proof {
        assert(path_segments(*path).subrange(0, n as int) =~= path_segments(*prefix));
    }
    true
}

/// The event delivered to subscribers: what kind of change happened and the
/// path of the writer that produced it.
pub struct ModifyInfo {
    pub effect: ModifyEffect,
    pub path: PartialPath,
}

impl ModifyInfo {
    /// A copy of the event.
    pub fn clone_info(&self) -> (r: ModifyInfo)
        ensures
            r.effect == self.effect,
            path_segments(r.path) == path_segments(self.path),
    {
        ModifyInfo { effect: self.effect, path: self.path.clone_path() }
    }

    /// Whether this event concerns a writer at `path`.
    pub fn path_matches(&self, path: &PartialPath, include_partial: bool) -> (r: bool)
        ensures
            r == spec_path_matches(path_segments(self.path), path_segments(*path), include_partial),
    {
        if paths_equal(&self.path, path) {
            true
        } else {
            include_partial && path_starts_with(&self.path, path)
        }
    }
}

} // verus!
