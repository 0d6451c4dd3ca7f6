use build_progress::action::{is_stop_of, Action, BuildStepId, HandlerResult, StartFields};
use build_progress::handler::{handle_new_unknown, Handler, LogHandler, Unknown, UNKNOWN_TICK_SECS};
use build_progress::label::capitalize_first;
use build_progress::state::State;
use build_progress::style::{build_style, StyleSpec};
use build_progress::surface::{RenderSurface, WidgetSpec};

fn labels(st: &State) -> Vec<String> {
    st.surface().widgets().iter().map(|w| w.spec.label.clone()).collect()
}

fn unknown(st: &mut State, id: u64, text: &str) {
    let u = Unknown::new(BuildStepId(id), text, st).expect("a handle is left");
    st.plug(Handler::Unknown(u));
}

fn start(id: u64, kind: StartFields, text: &str) -> Action {
    Action::Start { id: BuildStepId(id), start_type: kind, text: text.to_string() }
}

#[test]
fn label_first_scalar_upper_cased() {
    assert_eq!(capitalize_first("éclair"), "Éclair");
    assert_eq!(capitalize_first("build"), "Build");
    assert_eq!(capitalize_first("Build"), "Build");
    assert_eq!(capitalize_first("ßtep"), "SStep");
    assert_eq!(capitalize_first("x"), "X");
}

#[test]
fn label_empty_stays_empty() {
    assert_eq!(capitalize_first(""), "");
}

#[test]
fn fallback_widget_shows_normalized_label() {
    let mut st = State::new(100);
    unknown(&mut st, 7, "éclair");
    let w = &st.surface().widgets()[0];
    assert_eq!(w.spec.label, "Éclair");
    assert_eq!(w.spec.style, StyleSpec { width: 100, show_spinner: true });
    assert_eq!(w.spec.tick_secs, UNKNOWN_TICK_SECS);
    assert_eq!(UNKNOWN_TICK_SECS, 1);
    assert!(w.spec.clear_on_finish);
}

#[test]
fn scenario_start_then_stop_retires_handler() {
    let mut st = State::new(80);
    unknown(&mut st, 1, "build");
    assert_eq!(labels(&st), vec!["Build".to_string()]);
    // the start is not handed again to the handler it created
    let r = st.dispatch(&start(1, StartFields::Unknown, "build"));
    assert_eq!(r, vec![HandlerResult::Continue]);
    assert_eq!(st.handlers().len(), 1);
    assert_eq!(labels(&st), vec!["Build".to_string()]);
    let r = st.dispatch(&Action::Stop { id: BuildStepId(1) });
    assert_eq!(r, vec![HandlerResult::Close]);
    assert!(st.handlers().is_empty());
    assert!(st.surface().widgets().is_empty());
}

#[test]
fn scenario_resize_then_stop_one_of_two() {
    let mut st = State::new(40);
    unknown(&mut st, 1, "one");
    unknown(&mut st, 2, "two");
    st.resize(80);
    assert_eq!(st.term_size(), 80);
    assert_eq!(st.surface().width(), 80);
    for w in st.surface().widgets() {
        assert_eq!(w.spec.style, build_style(80));
    }
    let r = st.dispatch(&Action::Stop { id: BuildStepId(1) });
    assert_eq!(r, vec![HandlerResult::Close, HandlerResult::Continue]);
    assert_eq!(st.handlers().len(), 1);
    match &st.handlers()[0] {
        Handler::Unknown(u) => assert_eq!(u.id, BuildStepId(2)),
        Handler::Log(_) => panic!("expected the fallback handler"),
    }
    assert_eq!(labels(&st), vec!["Two".to_string()]);
    assert_eq!(st.surface().widgets()[0].spec.style, build_style(80));
}

#[test]
fn closed_handler_is_not_consulted_again() {
    let mut st = State::new(80);
    unknown(&mut st, 1, "a");
    unknown(&mut st, 2, "b");
    let stop = Action::Stop { id: BuildStepId(1) };
    assert_eq!(st.dispatch(&stop), vec![HandlerResult::Close, HandlerResult::Continue]);
    let handle_left = st.surface().widgets()[0].handle;
    assert_eq!(st.dispatch(&stop), vec![HandlerResult::Continue]);
    assert_eq!(st.surface().widgets().len(), 1);
    assert_eq!(st.surface().widgets()[0].handle, handle_left);
}

#[test]
fn every_live_handler_gets_one_verdict() {
    let mut st = State::new(80);
    unknown(&mut st, 1, "a");
    st.plug(Handler::Log(LogHandler::new(BuildStepId(1))));
    unknown(&mut st, 2, "b");
    unknown(&mut st, 1, "again");
    let r = st.dispatch(&Action::Stop { id: BuildStepId(1) });
    assert_eq!(
        r,
        vec![HandlerResult::Close, HandlerResult::Close, HandlerResult::Continue, HandlerResult::Close]
    );
    assert_eq!(st.handlers().len(), 1);
    assert_eq!(labels(&st), vec!["B".to_string()]);
}

#[test]
fn resize_twice_same_as_once() {
    let mut once = State::new(30);
    unknown(&mut once, 1, "a");
    unknown(&mut once, 2, "b");
    once.resize(120);
    let mut twice = State::new(30);
    unknown(&mut twice, 1, "a");
    unknown(&mut twice, 2, "b");
    twice.resize(120);
    twice.resize(120);
    let styles = |st: &State| st.surface().widgets().iter().map(|w| w.spec.style).collect::<Vec<_>>();
    assert_eq!(styles(&once), styles(&twice));
    assert_eq!(styles(&twice), vec![build_style(120), build_style(120)]);
    assert_eq!(once.term_size(), twice.term_size());
}

#[test]
fn stop_of_unowned_step_changes_nothing() {
    let mut st = State::new(80);
    unknown(&mut st, 1, "a");
    let r = st.dispatch(&Action::Stop { id: BuildStepId(9) });
    assert_eq!(r, vec![HandlerResult::Continue]);
    assert_eq!(st.handlers().len(), 1);
    assert_eq!(labels(&st), vec!["A".to_string()]);
    let mut empty = State::new(80);
    assert!(empty.dispatch(&Action::Stop { id: BuildStepId(9) }).is_empty());
    assert!(empty.handlers().is_empty());
}

#[test]
fn message_is_ignored_by_handlers() {
    let mut st = State::new(80);
    unknown(&mut st, 1, "a");
    let r = st.dispatch(&Action::Message { text: "hello".to_string() });
    assert_eq!(r, vec![HandlerResult::Continue]);
    assert_eq!(st.handlers().len(), 1);
}

#[test]
fn new_unknown_step_plugs_spinner_and_log() {
    let mut st = State::new(60);
    let r = handle_new_unknown(&mut st, &start(3, StartFields::Unknown, "fetching"));
    assert_eq!(r, Ok(HandlerResult::Continue));
    assert_eq!(st.handlers().len(), 2);
    assert!(matches!(&st.handlers()[0], Handler::Unknown(u) if u.id == BuildStepId(3)));
    assert!(matches!(&st.handlers()[1], Handler::Log(l) if l.id == BuildStepId(3)));
    assert_eq!(labels(&st), vec!["Fetching".to_string()]);
    assert_eq!(st.surface().widgets()[0].spec.style, build_style(60));
    assert_eq!(st.dispatch(&Action::Stop { id: BuildStepId(3) }), vec![HandlerResult::Close, HandlerResult::Close]);
    assert!(st.handlers().is_empty());
    assert!(st.surface().widgets().is_empty());
}

#[test]
fn other_actions_plug_nothing() {
    let mut st = State::new(60);
    assert_eq!(handle_new_unknown(&mut st, &start(3, StartFields::Build, "x")), Ok(HandlerResult::Continue));
    assert_eq!(handle_new_unknown(&mut st, &Action::Stop { id: BuildStepId(3) }), Ok(HandlerResult::Continue));
    assert!(st.handlers().is_empty());
    assert!(st.surface().widgets().is_empty());
}

#[test]
fn surface_hands_out_fresh_handles_and_removes_in_order() {
    let mut s = RenderSurface::new(10);
    let spec = |l: &str| WidgetSpec { label: l.to_string(), style: build_style(10), tick_secs: 0, clear_on_finish: false };
    let a = s.add_widget(spec("a")).unwrap();
    let b = s.add_widget(spec("b")).unwrap();
    let c = s.add_widget(spec("c")).unwrap();
    assert_eq!((a.id(), b.id(), c.id()), (0, 1, 2));
    s.set_style(&c, build_style(99));
    assert_eq!(s.widgets()[2].spec.style, build_style(99));
    assert_eq!(s.widgets()[0].spec.style, build_style(10));
    s.remove_widgets(vec![b]);
    let left: Vec<u64> = s.widgets().iter().map(|w| w.handle).collect();
    assert_eq!(left, vec![0, 2]);
    s.set_width(33);
    assert_eq!(s.width(), 33);
}

#[test]
fn stop_recognised_only_for_its_step() {
    assert!(is_stop_of(&Action::Stop { id: BuildStepId(4) }, BuildStepId(4)));
    assert!(!is_stop_of(&Action::Stop { id: BuildStepId(4) }, BuildStepId(5)));
    assert!(!is_stop_of(&start(4, StartFields::Unknown, "x"), BuildStepId(4)));
}
