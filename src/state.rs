//! The dispatcher: it owns the render surface and the live handlers, routes
//! every action and resize to all of them, and retires those that close.
use vstd::prelude::*;
use crate::action::{Action, HandlerResult};
use crate::handler::Handler;
use crate::style::spinner_style;
use crate::surface::{RenderSurface, SurfaceView, WidgetHandle, WidgetSpec, WidgetSpecView, WidgetView, handle_ids};

verus! {

pub struct StateView {
    pub term_size: u16,
    pub surface: SurfaceView,
    pub handlers: Seq<Handler>,
}

/// Holds of a handler that keeps running after `a`.
pub open spec fn continues(a: Action) -> spec_fn(Handler) -> bool {
    |h: Handler| h.verdict(a) == HandlerResult::Continue
}

/// The widget handles that the handlers of `hs` closing on `a` give back, in order.
pub open spec fn released(hs: Seq<Handler>, a: Action) -> Seq<u64>
    decreases hs.len(),
{
    if hs.len() == 0 {
        Seq::empty()
    } else {
        released(hs.drop_last(), a) + if hs.last().verdict(a) == HandlerResult::Close {
            hs.last().owned()
        } else {
            Seq::empty()
        }
    }
}

/// The widget handles owned by the handlers of `hs`.
pub open spec fn owned_set(hs: Seq<Handler>) -> Set<u64>
    decreases hs.len(),
{
    if hs.len() == 0 {
        Set::empty()
    } else {
        owned_set(hs.drop_last()) + hs.last().owned().to_set()
    }
}

impl StateView {
    /// The stored width is the surface's width, and the surface is well formed.
    pub open spec fn wf(self) -> bool {
        &&& self.term_size == self.surface.width
        &&& self.surface.wf()
    }

    /// The state after a widget drawn as `spec` was appended to the surface.
    pub open spec fn with_widget(self, spec: WidgetSpecView) -> StateView {
        StateView {
            surface: SurfaceView {
                widgets: self.surface.widgets.push(WidgetView { handle: self.surface.next_handle, spec }),
                next_handle: (self.surface.next_handle + 1) as u64,
                ..self.surface
            },
            ..self
        }
    }

    /// The state after `a` went to every live handler: those that close are
    /// gone, and so are their widgets.
    pub open spec fn after_action(self, a: Action) -> StateView {
        StateView {
            handlers: self.handlers.filter(continues(a)),
            surface: self.surface.without(released(self.handlers, a)),
            ..self
        }
    }

    /// The state after the terminal became `width` columns wide: every widget
    /// that a live handler owns is drawn for that width.
    pub open spec fn after_resize(self, width: u16) -> StateView {
        StateView {
            term_size: width,
            surface: SurfaceView { width, ..self.surface }.restyled(owned_set(self.handlers), spinner_style(width)),
            handlers: self.handlers,
        }
    }
}

/// The dispatcher's state: terminal width, render surface and live handlers.
pub struct State {
    term_size: u16,
    surface: RenderSurface,
    handlers: Vec<Handler>,
}

impl View for State {
    type V = StateView;

    closed spec fn view(&self) -> StateView {
        StateView { term_size: self.term_size, surface: self.surface@, handlers: self.handlers@ }
    }
}

impl State {
    /// A state with no handler and no widget, for a terminal `term_size` columns wide.
    pub fn new(term_size: u16) -> (r: State)
        ensures
            r@ == (StateView {
                term_size,
                surface: SurfaceView { width: term_size, widgets: Seq::empty(), next_handle: 0 },
                handlers: Seq::empty(),
            }),
            r@.wf(),
    {
        let r = State { term_size, surface: RenderSurface::new(term_size), handlers: Vec::new() };
        assert(r@.handlers =~= Seq::<Handler>::empty());
        r
    }

    pub fn term_size(&self) -> (r: u16)
        ensures
            r == self@.term_size,
    {
        self.term_size
    }

    pub fn surface(&self) -> (r: &RenderSurface)
        ensures
            r@ == self@.surface,
    {
        &self.surface
    }

    /// The live handlers, in the order they were plugged in.
    pub fn handlers(&self) -> (r: &Vec<Handler>)
        ensures
            r@ == self@.handlers,
    {
        &self.handlers
    }

    /// Registers `handler`: it receives every later action and resize.
    pub fn plug(&mut self, handler: Handler)
        ensures
            final(self)@ == (StateView { handlers: old(self)@.handlers.push(handler), ..old(self)@ }),
    {
        self.handlers.push(handler);
    }

    /// Creates a widget drawn as `spec` and hands its ownership to the caller;
    /// `None`, with the state unchanged, when no handle number is left.
    pub fn add(&mut self, spec: WidgetSpec) -> (r: Option<WidgetHandle>)
        requires
            old(self)@.wf(),
        ensures
            final(self)@.wf(),
            old(self)@.surface.next_handle == u64::MAX ==> r is None && final(self)@ == old(self)@,
            old(self)@.surface.next_handle < u64::MAX ==> {
                &&& r matches Some(h) && h.spec_id() == old(self)@.surface.next_handle
                &&& final(self)@ == old(self)@.with_widget(spec@)
            },
    {
        self.surface.add_widget(spec)
    }

    /// Delivers `action` to every live handler, each exactly once, then
    /// retires those that answered `Close` and removes their widgets. Returns
    /// the verdicts, one per handler that was live when the call began.
    pub fn dispatch(&mut self, action: &Action) -> (r: Vec<HandlerResult>)
        requires
            old(self)@.wf(),
        ensures
            r@ == old(self)@.handlers.map_values(|h: Handler| h.verdict(*action)),
            final(self)@ == old(self)@.after_action(*action),
            final(self)@.wf(),
    {
        let ghost hs = self.handlers@;
        let ghost a = *action;
        let n = self.handlers.len();
        let mut verdicts: Vec<HandlerResult> = Vec::new();
        let mut i: usize = 0;
        while i < n
            invariant
                0 <= i <= n,
                n == self.handlers@.len(),
                self.handlers@ == hs,
                a == *action,
                verdicts@ =~= hs.take(i as int).map_values(|h: Handler| h.verdict(a)),
            decreases n - i,
        {
            let v = self.handlers[i].on_action(action);
            verdicts.push(v);
            i = i + 1;
            assert(verdicts@ =~= hs.take(i as int).map_values(|h: Handler| h.verdict(a)));
        }
        assert(hs.take(n as int) =~= hs);
        let mut rest: Vec<Handler> = Vec::new();
        std::mem::swap(&mut rest, &mut self.handlers);
        let mut gone: Vec<WidgetHandle> = Vec::new();
        let ghost keep = continues(a);
        let mut j: usize = 0;
        while j < n
            invariant
                0 <= j <= n,
                n == hs.len(),
                rest@ == hs.skip(j as int),
                verdicts@ == hs.map_values(|h: Handler| h.verdict(a)),
                self.handlers@ == hs.take(j as int).filter(keep),
                handle_ids(gone@) == released(hs.take(j as int), a),
                keep == continues(a),
                self.surface@ == old(self)@.surface,
                self.term_size == old(self)@.term_size,
                hs == old(self)@.handlers,
            decreases n - j,
        {
            let h = rest.remove(0);
            proof {
                assert(hs.skip(j as int).drop_first() =~= hs.skip(j + 1));
                assert(hs.take(j + 1).drop_last() =~= hs.take(j as int));
                assert(hs.take(j + 1).last() == hs[j as int]);
                reveal(Seq::filter);
            }
            if verdicts[j] == HandlerResult::Close {
                h.into_widgets(&mut gone);
            } else {
                self.handlers.push(h);
            }
            j = j + 1;
        }
        assert(hs.take(n as int) =~= hs);
        self.surface.remove_widgets(gone);
        verdicts
    }

    /// Records that the terminal is now `width` columns wide and lets every
    /// live handler redraw its widgets for it.
    pub fn resize(&mut self, width: u16)
        requires
            old(self)@.wf(),
        ensures
            final(self)@ == old(self)@.after_resize(width),
            final(self)@.wf(),
    {
        self.term_size = width;
        self.surface.set_width(width);
        let ghost hs = self.handlers@;
        let ghost base = self.surface@;
        let ghost style = spinner_style(width);
        let n = self.handlers.len();
        let mut i: usize = 0;
        assert(base.restyled(Set::empty(), style).widgets =~= base.widgets);
        while i < n
            invariant
                0 <= i <= n,
                n == hs.len(),
                self.handlers@ == hs,
                self.surface@ == base.restyled(owned_set(hs.take(i as int)), style),
                self.term_size == width,
                base == (SurfaceView { width, ..old(self)@.surface }),
                style == spinner_style(width),
            decreases n - i,
        {
            let ghost before = self.surface@;
            self.handlers[i].on_resize(&mut self.surface, width);
            proof {
                let prev = owned_set(hs.take(i as int));
                assert(hs.take(i + 1).drop_last() =~= hs.take(i as int));
                assert(hs.take(i + 1).last() == hs[i as int]);
                let next = owned_set(hs.take(i + 1));
                assert(next == prev + hs[i as int].owned().to_set());
                assert(self.surface@.widgets =~= base.restyled(next, style).widgets);
            }
            i = i + 1;
        }
        assert(hs.take(n as int) =~= hs);
    }
}

} // verus!
