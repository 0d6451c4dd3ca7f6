//! Properties of the dispatcher that hold for every state.
use vstd::prelude::*;
use crate::action::{Action, BuildStepId, HandlerResult};
use crate::handler::Handler;
use crate::state::{StateView, continues, released};
use crate::surface::kept_without;

verus! {

/// Filtering keeps a sequence whole when every element passes.
proof fn lemma_filter_keeps_all<A>(s: Seq<A>, pred: spec_fn(A) -> bool)
    requires
        forall|i: int| 0 <= i < s.len() ==> pred(#[trigger] s[i]),
    ensures
        s.filter(pred) == s,
    decreases s.len(),
{
    reveal(Seq::filter);
    if s.len() > 0 {
        lemma_filter_keeps_all(s.drop_last(), pred);
        assert(s.drop_last().push(s.last()) =~= s);
    }
}

/// No handle is given back when no handler closes.
proof fn lemma_none_released(hs: Seq<Handler>, a: Action)
    requires
        forall|i: int| 0 <= i < hs.len() ==> (#[trigger] hs[i]).verdict(a) == HandlerResult::Continue,
    ensures
        released(hs, a) == Seq::<u64>::empty(),
    decreases hs.len(),
{
    if hs.len() > 0 {
        lemma_none_released(hs.drop_last(), a);
        assert(released(hs, a) =~= Seq::<u64>::empty());
    }
}

/// Each handle owned by a handler that closes on `a` is given back.
proof fn lemma_released_has(hs: Seq<Handler>, a: Action, i: int, k: u64)
    requires
        0 <= i < hs.len(),
        hs[i].verdict(a) == HandlerResult::Close,
        hs[i].owned().contains(k),
    ensures
        released(hs, a).contains(k),
    decreases hs.len(),
{
    let pre = released(hs.drop_last(), a);
    if i < hs.len() - 1 {
        assert(hs.drop_last()[i] == hs[i]);
        lemma_released_has(hs.drop_last(), a, i, k);
        let j = choose|j: int| 0 <= j < pre.len() && pre[j] == k;
        assert(released(hs, a)[j] == k);
    } else {
        let j = choose|j: int| 0 <= j < hs[i].owned().len() && hs[i].owned()[j] == k;
        assert(released(hs, a)[pre.len() + j] == k);
    }
}

/// A state in which no handler closes on `a` is left as it is by `a`.
proof fn lemma_quiet_action(s: StateView, a: Action)
    requires
        forall|i: int| 0 <= i < s.handlers.len() ==> (#[trigger] s.handlers[i]).verdict(a) == HandlerResult::Continue,
    ensures
        s.after_action(a) == s,
{
    lemma_filter_keeps_all(s.handlers, continues(a));
    lemma_none_released(s.handlers, a);
    lemma_filter_keeps_all(s.surface.widgets, kept_without(Seq::empty()));
}

/// A handler that answers `Close` is retired: it is no longer live, its
/// widgets are gone from the surface, and delivering the same action again
/// changes nothing, so nothing is removed twice.
pub proof fn lemma_close_retires(s: StateView, a: Action)
    requires
        s.wf(),
    ensures
        forall|h: Handler| #![auto] h.verdict(a) == HandlerResult::Close ==> !s.after_action(a).handlers.contains(h),
        forall|i: int, k: u64, j: int|
            #![trigger s.handlers[i].owned().contains(k), s.after_action(a).surface.widgets[j]]
            0 <= i < s.handlers.len() && s.handlers[i].verdict(a) == HandlerResult::Close
            && s.handlers[i].owned().contains(k) && 0 <= j < s.after_action(a).surface.widgets.len()
            ==> s.after_action(a).surface.widgets[j].handle != k,
        s.after_action(a).after_action(a) == s.after_action(a),
{
    let t = s.after_action(a);
    broadcast use Seq::lemma_filter_pred;
    assert forall|h: Handler| #![auto] h.verdict(a) == HandlerResult::Close implies !t.handlers.contains(h) by {
        if t.handlers.contains(h) {
            let j = choose|j: int| 0 <= j < t.handlers.len() && t.handlers[j] == h;
            assert(continues(a)(t.handlers[j]));
        }
    }
    assert forall|i: int, k: u64, j: int|
        #![trigger s.handlers[i].owned().contains(k), t.surface.widgets[j]]
        0 <= i < s.handlers.len() && s.handlers[i].verdict(a) == HandlerResult::Close
        && s.handlers[i].owned().contains(k) && 0 <= j < t.surface.widgets.len()
        implies t.surface.widgets[j].handle != k by {
        lemma_released_has(s.handlers, a, i, k);
        assert(kept_without(released(s.handlers, a))(t.surface.widgets[j]));
    }
    assert forall|i: int| 0 <= i < t.handlers.len() implies (#[trigger] t.handlers[i]).verdict(a) == HandlerResult::Continue by {
        assert(continues(a)(t.handlers[i]));
    }
    lemma_quiet_action(t, a);
}

/// Resizing twice to the same width leaves every widget as one resize does.
pub proof fn lemma_resize_idempotent(s: StateView, width: u16)
    requires
        s.wf(),
    ensures
        s.after_resize(width).after_resize(width) == s.after_resize(width),
{
    let t = s.after_resize(width);
    let tt = t.after_resize(width);
    assert(tt.surface.widgets =~= t.surface.widgets);
}

/// A `Stop` of a step that no live handler belongs to changes nothing.
pub proof fn lemma_irrelevant_stop(s: StateView, id: BuildStepId)
    requires
        s.wf(),
        forall|i: int| 0 <= i < s.handlers.len() ==> (#[trigger] s.handlers[i]).step() != id,
    ensures
        s.after_action(Action::Stop { id }) == s,
{
    lemma_quiet_action(s, Action::Stop { id });
}

} // verus!
