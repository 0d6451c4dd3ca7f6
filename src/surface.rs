//! The render surface: the terminal width and the widgets drawn on it, in
//! vertical order.
use vstd::prelude::*;
use crate::style::StyleSpec;

verus! {

/// Exclusive ownership of one widget on a surface. It cannot be copied: the
/// widget is released by giving the handle back.
#[derive(Debug)]
pub struct WidgetHandle {
    id: u64,
}

impl WidgetHandle {
    pub closed spec fn spec_id(&self) -> u64 {
        self.id
    }

    pub fn id(&self) -> (r: u64)
        ensures
            r == self.spec_id(),
    {
        self.id
    }
}

/// What a widget shows and how it behaves.
#[derive(Debug)]
pub struct WidgetSpec {
    pub label: String,
    pub style: StyleSpec,
    /// Seconds between animation ticks; zero for no steady tick.
    pub tick_secs: u64,
    /// Whether the widget leaves no line behind once it is removed.
    pub clear_on_finish: bool,
}

pub struct WidgetSpecView {
    pub label: Seq<char>,
    pub style: StyleSpec,
    pub tick_secs: u64,
    pub clear_on_finish: bool,
}

impl View for WidgetSpec {
    type V = WidgetSpecView;

    open spec fn view(&self) -> WidgetSpecView {
        WidgetSpecView {
            label: self.label@,
            style: self.style,
            tick_secs: self.tick_secs,
            clear_on_finish: self.clear_on_finish,
        }
    }
}

/// A widget on the surface, with the number of the handle that owns it.
#[derive(Debug)]
pub struct Widget {
    pub handle: u64,
    pub spec: WidgetSpec,
}

pub struct WidgetView {
    pub handle: u64,
    pub spec: WidgetSpecView,
}

impl View for Widget {
    type V = WidgetView;

    open spec fn view(&self) -> WidgetView {
        WidgetView { handle: self.handle, spec: self.spec@ }
    }
}

pub struct SurfaceView {
    pub width: u16,
    pub widgets: Seq<WidgetView>,
    /// The handle number that the next widget gets.
    pub next_handle: u64,
}

impl SurfaceView {
    /// Every widget's handle was given out before.
    pub open spec fn wf(self) -> bool {
        forall|i: int| 0 <= i < self.widgets.len() ==> #[trigger] self.widgets[i].handle < self.next_handle
    }

    /// The widgets that remain once those with a handle in `released` are gone.
    pub open spec fn without(self, released: Seq<u64>) -> SurfaceView {
        SurfaceView {
            widgets: self.widgets.filter(kept_without(released)),
            ..self
        }
    }

    /// The surface with each widget whose handle is in `owners` drawn in `style`.
    pub open spec fn restyled(self, owners: Set<u64>, style: StyleSpec) -> SurfaceView {
        SurfaceView {
            widgets: self.widgets.map_values(|w: WidgetView| restyle(w, owners, style)),
            ..self
        }
    }
}

/// Holds of a widget whose handle is not among `released`.
pub open spec fn kept_without(released: Seq<u64>) -> spec_fn(WidgetView) -> bool {
    |w: WidgetView| !released.contains(w.handle)
}

/// `w` drawn in `style` if its handle is in `owners`, else `w` unchanged.
pub open spec fn restyle(w: WidgetView, owners: Set<u64>, style: StyleSpec) -> WidgetView {
    if owners.contains(w.handle) {
        WidgetView { spec: WidgetSpecView { style, ..w.spec }, ..w }
    } else {
        w
    }
}

pub open spec fn handle_ids(hs: Seq<WidgetHandle>) -> Seq<u64> {
    hs.map_values(|h: WidgetHandle| h.spec_id())
}

/// The terminal drawing context: its width and its widgets in vertical order.
pub struct RenderSurface {
    width: u16,
    widgets: Vec<Widget>,
    next_handle: u64,
}

impl View for RenderSurface {
    type V = SurfaceView;

    closed spec fn view(&self) -> SurfaceView {
        SurfaceView {
            width: self.width,
            widgets: self.widgets@.map_values(|w: Widget| w@),
            next_handle: self.next_handle,
        }
    }
}

impl RenderSurface {
    /// An empty surface for a terminal `width` columns wide.
    pub fn new(width: u16) -> (r: RenderSurface)
        ensures
            r@ == (SurfaceView { width, widgets: Seq::empty(), next_handle: 0 }),
            r@.wf(),
    {
        let r = RenderSurface { width, widgets: Vec::new(), next_handle: 0 };
        assert(r@.widgets =~= Seq::<WidgetView>::empty());
        r
    }

    pub fn width(&self) -> (r: u16)
        ensures
            r == self@.width,
    {
        self.width
    }

    /// The widgets, top to bottom.
    pub fn widgets(&self) -> (r: &Vec<Widget>)
        ensures
            r@.map_values(|w: Widget| w@) == self@.widgets,
    {
        &self.widgets
    }

    pub fn set_width(&mut self, width: u16)
        ensures
            final(self)@ == (SurfaceView { width, ..old(self)@ }),
    {
        self.width = width;
    }

    /// Appends a widget and hands back its owning handle; `None`, with the
    /// surface unchanged, once every handle number has been given out.
    pub fn add_widget(&mut self, spec: WidgetSpec) -> (r: Option<WidgetHandle>)
        requires
            old(self)@.wf(),
        ensures
            final(self)@.wf(),
            old(self)@.next_handle == u64::MAX ==> r is None && final(self)@ == old(self)@,
            old(self)@.next_handle < u64::MAX ==> {
                &&& r matches Some(h) && h.spec_id() == old(self)@.next_handle
                &&& final(self)@ == (SurfaceView {
                    widgets: old(self)@.widgets.push(WidgetView { handle: old(self)@.next_handle, spec: spec@ }),
                    next_handle: (old(self)@.next_handle + 1) as u64,
                    ..old(self)@
                })
            },
    {
        if self.next_handle == u64::MAX {
            return None;
        }
        let id = self.next_handle;
        self.widgets.push(Widget { handle: id, spec });
        self.next_handle = id + 1;
        proof {
            let ghost w = WidgetView { handle: id, spec: spec@ };
            assert(self@.widgets =~= old(self)@.widgets.push(w));
        }
        Some(WidgetHandle { id })
    }

    /// Draws the widget owned by `h` in `style`.
    pub fn set_style(&mut self, h: &WidgetHandle, style: StyleSpec)
        ensures
            final(self)@ == old(self)@.restyled(set![h.spec_id()], style),
    {
        let n = self.widgets.len();
        let mut i: usize = 0;
        while i < n
            invariant
                n == self.widgets@.len(),
                n == old(self).widgets@.len(),
                0 <= i <= n,
                self.width == old(self).width,
                self.next_handle == old(self).next_handle,
                forall|j: int| 0 <= j < i ==> #[trigger] self.widgets@[j]@ == restyle(old(self).widgets@[j]@, set![h.spec_id()], style),
                forall|j: int| i <= j < n ==> #[trigger] self.widgets@[j] == old(self).widgets@[j],
            decreases n - i,
        {
            if self.widgets[i].handle == h.id {
                self.widgets[i].spec.style = style;
            }
            i = i + 1;
        }
        assert(self@.widgets =~= old(self)@.restyled(set![h.spec_id()], style).widgets);
    }

    /// Removes every widget whose handle is among `released`, keeping the
    /// order of the others; the handles are used up.
    pub fn remove_widgets(&mut self, released: Vec<WidgetHandle>)
        requires
            old(self)@.wf(),
        ensures
            final(self)@ == old(self)@.without(handle_ids(released@)),
            final(self)@.wf(),
    {
        let ghost ids = handle_ids(released@);
        let ghost ws = old(self)@.widgets;
        let ghost keep = kept_without(ids);
        let mut rest: Vec<Widget> = Vec::new();
        std::mem::swap(&mut rest, &mut self.widgets);
        let n = rest.len();
        let mut i: usize = 0;
        while i < n
            invariant
                0 <= i <= n,
                n == ws.len(),
                rest@.len() == n - i,
                rest@.map_values(|w: Widget| w@) == ws.skip(i as int),
                self@.widgets == ws.take(i as int).filter(keep),
                self.width == old(self).width,
                self.next_handle == old(self).next_handle,
                ids == handle_ids(released@),
                ws == old(self)@.widgets,
                keep == kept_without(ids),
            decreases n - i,
        {
            let ghost old_rest = rest@;
            let w = rest.remove(0);
            assert(w@ == ws[i as int]) by {
                assert(old_rest.map_values(|w: Widget| w@)[0] == w@);
            }
            assert(rest@.map_values(|w: Widget| w@) =~= ws.skip(i as int).drop_first());
            proof {
                assert(ws.skip(i as int).drop_first() =~= ws.skip(i + 1));
                assert(ws.take(i + 1).drop_last() =~= ws.take(i as int));
                assert(ws.take(i + 1).last() == ws[i as int]);
                reveal(Seq::filter);
                assert(ws.take(i + 1).filter(keep) == if keep(ws[i as int]) {
                    ws.take(i as int).filter(keep).push(ws[i as int])
                } else {
                    ws.take(i as int).filter(keep)
                });
            }
            let gone = contains_id(&released, w.handle);
            assert(keep(ws[i as int]) == !gone);
            if !gone {
                let ghost before = self.widgets@;
                self.widgets.push(w);
                assert(self.widgets@.map_values(|w: Widget| w@) =~= before.map_values(|w: Widget| w@).push(w@));
            }
            i = i + 1;
            assert(rest@.map_values(|w: Widget| w@) =~= ws.skip(i as int));
        }
        assert(ws.take(n as int) =~= ws);
        proof {
            let out = self@.widgets;
            assert forall|j: int| 0 <= j < out.len() implies #[trigger] out[j].handle < self.next_handle by {
                ws.lemma_filter_contains_rev(keep, out[j]);
                assert(out.contains(out[j]));
            }
        }
    }
}

/// Tells whether some handle in `hs` has number `id`.
fn contains_id(hs: &Vec<WidgetHandle>, id: u64) -> (r: bool)
    ensures
        r == handle_ids(hs@).contains(id),
{
    let mut i: usize = 0;
    while i < hs.len()
        invariant
            0 <= i <= hs@.len(),
            forall|j: int| 0 <= j < i ==> #[trigger] hs@[j].spec_id() != id,
        decreases hs@.len() - i,
    {
        if hs[i].id == id {
            assert(handle_ids(hs@)[i as int] == id);
            return true;
        }
        i = i + 1;
    }
    assert(!handle_ids(hs@).contains(id)) by {
        if handle_ids(hs@).contains(id) {
            let j = choose|j: int| 0 <= j < handle_ids(hs@).len() && handle_ids(hs@)[j] == id;
            assert(hs@[j].spec_id() == id);
        }
    }
    false
}

} // verus!
