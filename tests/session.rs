use pyegui::error::{ScopeOutcome, UiError};
use pyegui::session::Session;

const MAIN: u64 = 1;
const OTHER: u64 = 2;

fn running() -> Session<&'static str> {
    let mut s = Session::new();
    s.start(MAIN).unwrap();
    s
}

#[test]
fn second_start_fails_with_already_running() {
    let mut s: Session<&'static str> = Session::new();
    assert!(!s.is_running());
    assert_eq!(s.start(MAIN), Ok(()));
    assert_eq!(s.start(OTHER), Err(UiError::AlreadyRunning));
    assert_eq!(s.start(MAIN), Err(UiError::AlreadyRunning));
    assert!(s.is_running());
    // the loser did not take the run over
    let root = s.begin_frame(MAIN, "root").unwrap();
    assert_eq!(s.begin_frame(OTHER, "root"), Err(UiError::NoActiveFrame));
    assert_eq!(s.leave_scope(MAIN, root, true), Ok(ScopeOutcome::Completed));
}

#[test]
fn start_succeeds_again_after_finish() {
    let mut s = running();
    assert_eq!(s.finish(OTHER), Err(UiError::NoActiveFrame));
    assert!(s.is_running());
    assert_eq!(s.finish(MAIN), Ok(()));
    assert!(!s.is_running());
    assert_eq!(s.start(OTHER), Ok(()));
}

#[test]
fn widget_call_without_session_is_no_active_frame() {
    let s: Session<&'static str> = Session::new();
    assert_eq!(s.current(MAIN), Err(UiError::NoActiveFrame));
    let mut s = s;
    assert_eq!(s.enter_scope(MAIN, "child"), Err(UiError::NoActiveFrame));
    assert_eq!(s.depth(), 0);
}

#[test]
fn widget_call_between_frames_is_no_active_frame() {
    let mut s = running();
    assert_eq!(s.current(MAIN), Err(UiError::NoActiveFrame));
    let root = s.begin_frame(MAIN, "root").unwrap();
    s.leave_scope(MAIN, root, true).unwrap();
    assert_eq!(s.current(MAIN), Err(UiError::NoActiveFrame));
}

#[test]
fn widget_call_from_other_thread_is_no_active_frame() {
    let mut s = running();
    let _root = s.begin_frame(MAIN, "root").unwrap();
    assert_eq!(s.current(MAIN), Ok(&"root"));
    assert_eq!(s.current(OTHER), Err(UiError::NoActiveFrame));
    assert_eq!(s.enter_scope(OTHER, "child"), Err(UiError::NoActiveFrame));
}

#[test]
fn widget_call_after_finish_is_no_active_frame() {
    let mut s = running();
    let _root = s.begin_frame(MAIN, "root").unwrap();
    s.finish(MAIN).unwrap();
    assert_eq!(s.depth(), 0);
    assert_eq!(s.current(MAIN), Err(UiError::NoActiveFrame));
}

#[test]
fn nested_scopes_restore_depth_even_when_bodies_fail() {
    let mut s = running();
    let root = s.begin_frame(MAIN, "root").unwrap();
    let before = s.depth();
    let h = s.enter_scope(MAIN, "horizontal").unwrap();
    assert_eq!(s.current(MAIN), Ok(&"horizontal"));
    let g = s.enter_scope(MAIN, "group").unwrap();
    assert_eq!(s.current(MAIN), Ok(&"group"));
    assert_eq!(s.depth(), before + 2);
    assert_eq!(s.leave_scope(MAIN, g, false), Ok(ScopeOutcome::BodyFailed));
    assert_eq!(s.current(MAIN), Ok(&"horizontal"));
    let i = s.enter_scope(MAIN, "indent").unwrap();
    assert_eq!(s.leave_scope(MAIN, i, true), Ok(ScopeOutcome::Completed));
    assert_eq!(s.leave_scope(MAIN, h, false), Ok(ScopeOutcome::BodyFailed));
    assert_eq!(s.depth(), before);
    assert_eq!(s.current(MAIN), Ok(&"root"));
    assert_eq!(s.leave_scope(MAIN, root, true), Ok(ScopeOutcome::Completed));
    assert_eq!(s.depth(), 0);
}

#[test]
fn failing_frame_callback_still_completes_the_frame() {
    let mut s = running();
    let root = s.begin_frame(MAIN, "root").unwrap();
    // label "A", label "B": both find the root region
    assert_eq!(s.current(MAIN), Ok(&"root"));
    assert_eq!(s.current(MAIN), Ok(&"root"));
    // then the callback fails
    assert_eq!(s.leave_scope(MAIN, root, false), Ok(ScopeOutcome::BodyFailed));
    assert_eq!(s.depth(), 0);
    let next = s.begin_frame(MAIN, "root").unwrap();
    assert_eq!(s.current(MAIN), Ok(&"root"));
    assert_eq!(s.leave_scope(MAIN, next, true), Ok(ScopeOutcome::Completed));
    assert_eq!(s.depth(), 0);
}

#[test]
fn frame_cannot_open_inside_a_frame() {
    let mut s = running();
    let root = s.begin_frame(MAIN, "root").unwrap();
    assert_eq!(s.begin_frame(MAIN, "again"), Err(UiError::StackConsistency));
    assert_eq!(s.depth(), 1);
    s.leave_scope(MAIN, root, true).unwrap();
}

#[test]
fn frame_needs_an_active_run() {
    let mut s: Session<&'static str> = Session::new();
    assert_eq!(s.begin_frame(MAIN, "root"), Err(UiError::NoActiveFrame));
    assert_eq!(s.depth(), 0);
}

#[test]
fn leaving_from_other_thread_changes_nothing() {
    let mut s = running();
    let root = s.begin_frame(MAIN, "root").unwrap();
    assert_eq!(s.leave_scope(OTHER, root, true), Err(UiError::NoActiveFrame));
    assert_eq!(s.depth(), 1);
}

#[test]
fn leaving_outer_scope_first_is_a_nesting_fault() {
    let mut s = running();
    let _root = s.begin_frame(MAIN, "root").unwrap();
    let outer = s.enter_scope(MAIN, "outer").unwrap();
    let inner = s.enter_scope(MAIN, "inner").unwrap();
    assert_eq!(s.leave_scope(MAIN, outer, true), Err(UiError::StackConsistency));
    assert_eq!(s.depth(), 1);
    assert_eq!(s.leave_scope(MAIN, inner, true), Err(UiError::StackConsistency));
    assert_eq!(s.depth(), 1);
}

#[test]
fn collapsed_section_is_region_unavailable() {
    let mut s = running();
    let root = s.begin_frame(MAIN, "root").unwrap();
    let before = s.depth();
    // the toolkit did not open the section, so the body never ran
    assert_eq!(s.finish_scope(before, None), Ok(ScopeOutcome::RegionUnavailable));
    assert_eq!(s.depth(), before);
    s.leave_scope(MAIN, root, true).unwrap();
}

#[test]
fn settled_scope_reports_how_it_left() {
    let mut s = running();
    let _root = s.begin_frame(MAIN, "root").unwrap();
    let before = s.depth();
    let t = s.enter_scope(MAIN, "group").unwrap();
    let left = s.leave_scope(MAIN, t, false);
    assert_eq!(s.finish_scope(before, Some(left)), Ok(ScopeOutcome::BodyFailed));
}

#[test]
fn settling_with_unbalanced_stack_is_a_nesting_fault() {
    let mut s = running();
    let _root = s.begin_frame(MAIN, "root").unwrap();
    let before = s.depth();
    let _t = s.enter_scope(MAIN, "group").unwrap();
    assert_eq!(
        s.finish_scope(before, Some(Ok(ScopeOutcome::Completed))),
        Err(UiError::StackConsistency)
    );
    assert_eq!(s.finish_scope(before, None), Err(UiError::StackConsistency));
}
