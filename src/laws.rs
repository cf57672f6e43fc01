//! Laws of the state system, stated over the specifications that the
//! operations' contracts use, and proved.
use vstd::prelude::*;
use crate::cell::BorrowState;
use crate::effect::ModifyEffect;
use crate::notifier::{spec_batch_after, spec_flushed, spec_needs_schedule};
use crate::part_map::{Compose, PartMap};
use crate::state::{Stateful, spec_state_notified};
use crate::watcher::spec_hears;

verus! {

/// The union of a run of effects.
pub open spec fn spec_union_all(effects: Seq<ModifyEffect>) -> ModifyEffect
    decreases effects.len(),
{
    if effects.len() == 0 {
        ModifyEffect { data: false, framework: false }
    } else {
        spec_union_all(effects.drop_last()).spec_union(effects.last())
    }
}

/// The pending effect of a scope after modified guards with `effects` were
/// flushed into it one after another, starting from `batched`.
pub open spec fn spec_batch_run(batched: ModifyEffect, effects: Seq<ModifyEffect>) -> ModifyEffect
    decreases effects.len(),
{
    if effects.len() == 0 {
        batched
    } else {
        spec_batch_after(spec_batch_run(batched, effects.drop_last()), effects.last(), true)
    }
}

/// How many times the scheduler is asked for a delivery while modified
/// guards with `effects` are flushed one after another, starting from
/// `batched`.
pub open spec fn spec_schedule_count(batched: ModifyEffect, effects: Seq<ModifyEffect>) -> nat
    decreases effects.len(),
{
    if effects.len() == 0 {
        0
    } else {
        spec_schedule_count(batched, effects.drop_last()) + if spec_needs_schedule(
            spec_batch_run(batched, effects.drop_last()),
            effects.last(),
            true,
        ) {
            1nat
        } else {
            0nat
        }
    }
}

/// Single delivery per batch: however many modified guards are flushed
/// into a scope with nothing pending before the scheduler drains it, the
/// scheduler is asked once (never, if all effects are empty), and the
/// pending effect, which the drain delivers as one event, is the union of
/// all of them.
pub proof fn lemma_single_delivery_per_batch(effects: Seq<ModifyEffect>)
    ensures
        spec_batch_run(ModifyEffect { data: false, framework: false }, effects) == spec_union_all(effects),
        spec_schedule_count(ModifyEffect { data: false, framework: false }, effects) == if spec_union_all(
            effects,
        ).spec_is_empty() {
            0nat
        } else {
            1nat
        },
    decreases effects.len(),
{
    if effects.len() > 0 {
        lemma_single_delivery_per_batch(effects.drop_last());
    }
}

/// Part-writer isolation: below a writer at `parent`, children at
/// `parent + [a]` and `parent + [b]` with `a != b`, all including partial
/// writers. An event of child `a` is heard by the parent and by `a`, not by
/// `b`; an event of the parent is heard by the parent, by neither child.
pub proof fn lemma_part_writer_isolation(
    parent: Seq<Seq<char>>,
    a: Seq<char>,
    b: Seq<char>,
    effect: ModifyEffect,
)
    requires
        a != b,
    ensures
        spec_hears(parent, true, false, (effect, parent.push(a))),
        spec_hears(parent.push(a), true, false, (effect, parent.push(a))),
        !spec_hears(parent.push(b), true, false, (effect, parent.push(a))),
        spec_hears(parent, true, false, (effect, parent)),
        !spec_hears(parent.push(a), true, false, (effect, parent)),
        !spec_hears(parent.push(b), true, false, (effect, parent)),
{
    assert(parent.push(a).subrange(0, parent.len() as int) =~= parent);
    assert(parent.push(a)[parent.len() as int] == a);
    assert(parent.push(b)[parent.len() as int] == b);
    if parent.push(b) == parent.push(a) {
        assert(parent.push(b)[parent.len() as int] == parent.push(a)[parent.len() as int]);
    }
    if parent.push(b).len() <= parent.push(a).len() {
        assert(parent.push(a).subrange(0, parent.push(b).len() as int) =~= parent.push(a));
    }
}

/// Split independence: flushing a guard of one scope (a split writer's)
/// and then draining leaves every other scope (the origin's) with exactly
/// the events that draining alone gives it; the value is shared.
pub proof fn lemma_split_independence<V>(
    s0: Stateful<V>,
    s1: Stateful<V>,
    s2: Stateful<V>,
    split_scope: usize,
    other: usize,
    effect: ModifyEffect,
    path: Seq<Seq<char>>,
    modified: bool,
)
    requires
        s0.has_scope(split_scope),
        s0.has_scope(other),
        other != split_scope,
        spec_state_notified(s0, s1, split_scope, effect, path, modified),
        s2.spec_scopes().len() == s1.spec_scopes().len(),
        forall|j: int| 0 <= j < s1.spec_scopes().len() ==> spec_flushed(s1.spec_scopes()[j], #[trigger] s2.spec_scopes()[j]),
    ensures
        s2.spec_scopes()[other as int].spec_events() == if s0.spec_scopes()[other as int].spec_batched().spec_is_empty() {
            s0.spec_scopes()[other as int].spec_events()
        } else {
            s0.spec_scopes()[other as int].spec_events().push(
                (s0.spec_scopes()[other as int].spec_batched(), s0.spec_scopes()[other as int].spec_batched_path()),
            )
        },
        s1.spec_value() == s0.spec_value(),
{
    assert(spec_flushed(s1.spec_scopes()[other as int], s2.spec_scopes()[other as int]));
}

/// Borrow safety: with a shared borrow alive no exclusive borrow can be
/// taken; with the exclusive borrow alive no shared borrow can be taken;
/// a second shared borrow can be taken while a first one is alive.
pub proof fn lemma_borrow_safety(b: BorrowState)
    requires
        b.wf(),
    ensures
        b is Shared ==> !b.can_write(),
        b is Exclusive ==> !b.can_read(),
        b is Shared ==> b.can_read(),
        BorrowState::Shared(1).can_read(),
        BorrowState::Unborrowed.can_read() && BorrowState::Unborrowed.can_write(),
{
}

/// Projections are views: a part written through a projection (or a
/// projection of a projection) is what reading the part then gives, and
/// the rest of the value is what it was.
pub proof fn lemma_projection_round_trip<V, W: 'static, U, A: PartMap<V, W>, B: PartMap<W, U>>(
    outer: A,
    inner: B,
    v: V,
    u: U,
)
    requires
        outer.has_part(v),
        inner.has_part(outer.part(v)),
    ensures
        Compose::<A, B, W>::spec_new(outer, inner).part(v) == inner.part(outer.part(v)),
        Compose::<A, B, W>::spec_new(outer, inner).part(Compose::<A, B, W>::spec_new(outer, inner).put(v, u)) == u,
        Compose::<A, B, W>::spec_new(outer, inner).put(v, Compose::<A, B, W>::spec_new(outer, inner).part(v)) == v,
{
    let c = Compose::<A, B, W>::spec_new(outer, inner);
    c.lemma_part_of_put(v, u);
    c.lemma_put_part(v);
}

} // verus!
