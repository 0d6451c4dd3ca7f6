//! Handlers: units that own widgets for one build step and react to actions
//! and to terminal resizes.
use vstd::prelude::*;
use crate::action::{Action, BuildStepId, HandlerResult, StartFields, stops, is_stop_of};
use crate::label::{capitalize_first, capitalized};
use crate::state::{State, StateView};
use crate::style::{build_style, spinner_style};
use crate::surface::{RenderSurface, WidgetHandle, WidgetSpec, WidgetSpecView, handle_ids};

verus! {

/// Seconds between two frames of the fallback spinner.
pub const UNKNOWN_TICK_SECS: u64 = 1;

/// The fallback handler: a spinner labelled with the step's text, for steps
/// that no specific handler recognises.
#[derive(Debug)]
pub struct Unknown {
    pub id: BuildStepId,
    pub progress: WidgetHandle,
}

/// Collects the log of one step; it owns no widget and retires when its
/// step stops.
#[derive(Debug)]
pub struct LogHandler {
    pub id: BuildStepId,
}

impl LogHandler {
    pub fn new(id: BuildStepId) -> (r: LogHandler)
        ensures
            r.id == id,
    {
        LogHandler { id }
    }
}

/// The live handler kinds.
#[derive(Debug)]
pub enum Handler {
    Unknown(Unknown),
    Log(LogHandler),
}

/// What the fallback widget of a step labelled `text` looks like on a
/// terminal `size` columns wide.
pub open spec fn unknown_widget(text: Seq<char>, size: u16) -> WidgetSpecView {
    WidgetSpecView {
        label: capitalized(text),
        style: spinner_style(size),
        tick_secs: UNKNOWN_TICK_SECS,
        clear_on_finish: true,
    }
}

impl Handler {
    /// The step this handler belongs to.
    pub open spec fn step(self) -> BuildStepId {
        match self {
            Handler::Unknown(u) => u.id,
            Handler::Log(l) => l.id,
        }
    }

    /// The numbers of the widget handles this handler owns.
    pub open spec fn owned(self) -> Seq<u64> {
        match self {
            Handler::Unknown(u) => seq![u.progress.spec_id()],
            Handler::Log(_) => Seq::empty(),
        }
    }

    /// The verdict on `a`: `Close` exactly for the `Stop` of the own step.
    pub open spec fn verdict(self, a: Action) -> HandlerResult {
        if stops(a, self.step()) {
            HandlerResult::Close
        } else {
            HandlerResult::Continue
        }
    }

    pub fn on_action(&self, action: &Action) -> (r: HandlerResult)
        ensures
            r == self.verdict(*action),
    {
        let id = match self {
            Handler::Unknown(u) => u.id,
            Handler::Log(l) => l.id,
        };
        if is_stop_of(action, id) {
            HandlerResult::Close
        } else {
            HandlerResult::Continue
        }
    }

    /// Redraws the owned widgets for a terminal `size` columns wide.
    pub fn on_resize(&self, surface: &mut RenderSurface, size: u16)
        ensures
            final(surface)@ == old(surface)@.restyled(self.owned().to_set(), spinner_style(size)),
    {
        match self {
            Handler::Unknown(u) => {
                surface.set_style(&u.progress, build_style(size));
                let ghost x = u.progress.spec_id();
                assert(seq![x][0] == x);
                assert(seq![x].to_set() =~= set![x]);
            },
            Handler::Log(_) => {
                let ghost s = surface@;
                assert(s.restyled(Set::empty(), spinner_style(size)).widgets =~= s.widgets);
                assert(Seq::<u64>::empty().to_set() =~= Set::empty());
            },
        }
    }

    /// Gives up the handler, appending the handles it owned to `out`.
    pub fn into_widgets(self, out: &mut Vec<WidgetHandle>)
        ensures
            handle_ids(final(out)@) == handle_ids(old(out)@) + self.owned(),
    {
        match self {
            Handler::Unknown(u) => {
                out.push(u.progress);
                assert(handle_ids(out@) =~= handle_ids(old(out)@) + self.owned());
            },
            Handler::Log(_) => {
                assert(handle_ids(out@) =~= handle_ids(old(out)@) + self.owned());
            },
        }
    }
}

impl Unknown {
    /// Creates the fallback spinner of step `id`, labelled with `text` with its
    /// first character upper-cased, on the surface of `state`. `None`, with
    /// `state` unchanged, when the surface has no handle left to give.
    pub fn new(id: BuildStepId, text: &str, state: &mut State) -> (r: Option<Unknown>)
        requires
            old(state)@.wf(),
        ensures
            final(state)@.wf(),
            old(state)@.surface.next_handle == u64::MAX ==> r is None && final(state)@ == old(state)@,
            old(state)@.surface.next_handle < u64::MAX ==> {
                &&& r matches Some(u) && u.id == id && u.progress.spec_id() == old(state)@.surface.next_handle
                &&& final(state)@ == old(state)@.with_widget(unknown_widget(text@, old(state)@.term_size))
            },
    {
        let message = capitalize_first(text);
        let spec = WidgetSpec {
            label: message,
            style: build_style(state.term_size()),
            tick_secs: UNKNOWN_TICK_SECS,
            clear_on_finish: true,
        };
        match state.add(spec) {
            Some(progress) => Some(Unknown { id, progress }),
            None => None,
        }
    }
}

/// Why a handler could not be set up.
#[derive(Clone, Copy, Debug, PartialEq, Eq, Structural)]
pub enum HandlerError {
    /// The surface has given out every widget handle number.
    WidgetsExhausted,
}

/// Whether `a` starts a step that no specific handler recognises.
pub open spec fn starts_unknown(a: Action) -> bool {
    a matches Action::Start { start_type: StartFields::Unknown, .. }
}

/// `t` is `s` after `a`, a `Start` of an unrecognised step, has plugged in
/// its fallback spinner and then its log handler.
pub open spec fn unknown_step_plugged(s: StateView, t: StateView, a: Action) -> bool {
    let n = s.handlers.len() as int;
    let id = a->Start_id;
    &&& t.term_size == s.term_size
    &&& t.surface == s.with_widget(unknown_widget(a->Start_text@, s.term_size)).surface
    &&& t.handlers.len() == n + 2
    &&& t.handlers.take(n) == s.handlers
    &&& t.handlers[n] matches Handler::Unknown(u) && u.id == id && u.progress.spec_id() == s.surface.next_handle
    &&& t.handlers[n + 1] == Handler::Log(LogHandler { id })
}

/// Sets up the handlers of a step whose kind no specific handler recognises:
/// a fallback spinner and a log handler. Other actions leave `state` as it is.
pub fn handle_new_unknown(state: &mut State, action: &Action) -> (r: Result<HandlerResult, HandlerError>)
    requires
        old(state)@.wf(),
    ensures
        final(state)@.wf(),
        !starts_unknown(*action) ==> r == Ok::<HandlerResult, HandlerError>(HandlerResult::Continue) && final(state)@ == old(state)@,
        starts_unknown(*action) && old(state)@.surface.next_handle == u64::MAX ==> r == Err::<HandlerResult, HandlerError>(HandlerError::WidgetsExhausted) && final(state)@ == old(state)@,
        starts_unknown(*action) && old(state)@.surface.next_handle < u64::MAX ==> r == Ok::<HandlerResult, HandlerError>(HandlerResult::Continue) && unknown_step_plugged(old(state)@, final(state)@, *action),
{
    if let Action::Start { start_type: StartFields::Unknown, id, text } = action {
        match Unknown::new(*id, text.as_str(), state) {
            Some(handler) => {
                state.plug(Handler::Unknown(handler));
                state.plug(Handler::Log(LogHandler::new(*id)));
                assert(state@.handlers.take(old(state)@.handlers.len() as int) =~= old(state)@.handlers);
            },
            None => {
                return Err(HandlerError::WidgetsExhausted);
            },
        }
    }
    Ok(HandlerResult::Continue)
}

} // verus!
