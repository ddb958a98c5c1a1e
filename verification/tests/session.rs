use vst_host::session::{EditorRect, LifecycleViolation, Session, SessionState, StartupError};

#[test]
fn lifecycle_reaches_editor_open() {
    let mut s = Session::new();
    assert_eq!(s.state, SessionState::Unloaded);
    assert_eq!(s.process_calls, 0);

    s.on_load(true).unwrap();
    assert_eq!(s.state, SessionState::Loaded);

    s.on_initialized();
    assert_eq!(s.state, SessionState::Initialized);

    s.configure(44100, 441, true).unwrap();
    assert_eq!(s.state, SessionState::Configured);
    assert_eq!(s.sample_rate, 44100);
    assert_eq!(s.block_size, 441);

    s.activate();
    assert_eq!(s.state, SessionState::Active);

    let rect = EditorRect::new(0, 0, 400, 300).unwrap();
    let size = s.open_editor(Some(rect)).unwrap();
    assert_eq!(size, (400, 300));
    assert_eq!(s.state, SessionState::EditorOpen);
    assert_eq!(s.process_calls, 0);
}

#[test]
fn load_failure_is_fatal() {
    let mut s = Session::new();
    let r = s.on_load(false);
    assert_eq!(r, Err(StartupError::LoadFailed));
    assert_eq!(s.state, SessionState::Unloaded);
}

#[test]
fn config_rejection_is_fatal() {
    let mut s = Session::new();
    s.on_load(true).unwrap();
    s.on_initialized();
    let r = s.configure(44100, 441, false);
    assert_eq!(r, Err(StartupError::ConfigRejected));
    assert_eq!(s.state, SessionState::Initialized);
}

#[test]
fn missing_editor_rect_aborts() {
    let mut s = Session::new();
    s.on_load(true).unwrap();
    s.on_initialized();
    s.configure(44100, 441, true).unwrap();
    s.activate();
    let r = s.open_editor(None);
    assert_eq!(r, Err(StartupError::NoEditorRect));
    assert_eq!(s.state, SessionState::Active);
}

#[test]
fn editor_rect_rejects_unordered_corners() {
    assert!(EditorRect::new(5, 0, 4, 300).is_none());
    assert!(EditorRect::new(0, 301, 400, 300).is_none());
}

#[test]
fn empty_editor_rect_is_no_geometry() {
    // A plugin without an editor answers the geometry query with a null or
    // empty rectangle; an empty one is rejected just like a null one.
    assert!(EditorRect::new(0, 0, 0, 0).is_none());
    assert!(EditorRect::new(0, 0, 0, 300).is_none());
    assert!(EditorRect::new(0, 0, 400, 0).is_none());
    assert!(EditorRect::new(7, 9, 8, 10).is_some());
}

#[test]
fn empty_editor_rect_aborts_startup() {
    let mut s = Session::new();
    s.on_load(true).unwrap();
    s.on_initialized();
    s.configure(44100, 441, true).unwrap();
    s.activate();
    let rect = EditorRect::new(0, 0, 0, 0);
    let r = s.open_editor(rect);
    assert_eq!(r, Err(StartupError::NoEditorRect));
    assert_eq!(s.state, SessionState::Active);
}

#[test]
fn editor_window_size_is_rect_extent() {
    let mut s = Session::new();
    s.on_load(true).unwrap();
    s.on_initialized();
    s.configure(44100, 441, true).unwrap();
    s.activate();
    let rect = EditorRect::new(10, 20, 410, 320).unwrap();
    let size = s.open_editor(Some(rect)).unwrap();
    assert_eq!(size, (400, 300));
}

#[test]
fn process_guard_rejects_until_active() {
    let mut s = Session::new();
    assert!(!s.can_process(441));
    s.on_load(true).unwrap();
    assert!(!s.can_process(441));
    s.on_initialized();
    assert!(!s.can_process(441));
    s.configure(44100, 441, true).unwrap();
    assert!(!s.can_process(441));
    s.activate();
    assert!(s.can_process(441));
    assert!(!s.can_process(440));
    s.record_process(441);
    assert_eq!(s.process_calls, 1);
}

#[test]
fn unload_is_safe_and_idempotent() {
    let mut s = Session::new();
    s.unload();
    assert_eq!(s.state, SessionState::Unloaded);
    s.on_load(true).unwrap();
    s.on_initialized();
    s.configure(44100, 441, true).unwrap();
    s.activate();
    s.unload();
    assert_eq!(s.state, SessionState::Unloaded);
    s.unload();
    assert_eq!(s.state, SessionState::Unloaded);
}

#[test]
fn violation_variants_name_the_defect() {
    assert_ne!(LifecycleViolation::NotProcessing, LifecycleViolation::FrameCountMismatch);
}
