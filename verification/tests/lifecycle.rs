use webviewcontrol::edge::{
    BoundsEffect, CompletionEffect, Control, CreateRequest, CreationStatus, HwndType, Process,
    Rect, WindowRect,
};
use webviewcontrol::Error;

fn new_child_control(parent: usize, created: usize) -> (Control, CreateRequest) {
    let process = Process::new();
    process
        .create_control(HwndType::NewHwndInWindow(parent), (0, 0), (100, 100), Ok(created))
        .expect("creation with a fresh child window succeeds")
}

fn new_fill_control(window: usize) -> (Control, CreateRequest) {
    let process = Process::new();
    process
        .create_control(HwndType::FillWindow(window), (0, 0), (0, 0), Err(0))
        .expect("creation filling an existing window succeeds")
}

#[test]
fn create_returns_request_with_initial_bounds() {
    let process = Process::new();
    let (control, request) = process
        .create_control(HwndType::NewHwndInWindow(7), (10, 20), (640, 480), Ok(42))
        .expect("creation succeeds");
    assert_eq!(request.hwnd, 42);
    assert_eq!(request.bounds, Rect { x: 10, y: 20, width: 640, height: 480 });
    assert_eq!(control.get_hwnd(), 42);
    assert_eq!(control.get_inner(), None);
    assert_eq!(control.creation_status(), CreationStatus::Pending);
    assert_eq!(control.queued_bounds_update(), None);
}

#[test]
fn new_hwnd_creation_failure_surfaces_io_error() {
    let process = Process::new();
    let r = process.create_control(HwndType::NewHwndInWindow(7), (0, 0), (100, 100), Err(5));
    assert_eq!(r.err(), Some(Error::Io(5)));
}

#[test]
fn fill_and_consume_ignore_window_creation_outcome() {
    let process = Process::new();
    let ok = process.create_control(HwndType::FillWindow(5), (0, 0), (0, 0), Err(5));
    assert!(ok.is_ok());
    let ok = process.create_control(HwndType::ConsumeHwnd(6), (0, 0), (0, 0), Err(5));
    assert!(ok.is_ok());
}

#[test]
fn deferred_resizes_coalesce_to_last() {
    let (mut control, _) = new_child_control(7, 42);
    for (w, h) in [(100, 100), (300, 200), (800, 600)] {
        let eff = control.resize(None, Some((w, h)), Err(0)).expect("deferral succeeds");
        assert_eq!(eff.bounds, BoundsEffect::Deferred);
    }
    assert_eq!(
        control.queued_bounds_update(),
        Some(Rect { x: 0, y: 0, width: 800, height: 600 })
    );
    let done = control.control_created(Some(9));
    assert_eq!(
        done,
        CompletionEffect::Ready {
            control: 9,
            flush: Some(Rect { x: 0, y: 0, width: 800, height: 600 }),
        }
    );
    assert_eq!(control.queued_bounds_update(), None);
}

#[test]
fn new_hwnd_deferred_resize_flushes_exactly_once() {
    let (mut control, _) = new_child_control(7, 42);
    let eff = control.resize(None, Some((800, 600)), Err(0)).expect("deferral succeeds");
    assert_eq!(eff.bounds, BoundsEffect::Deferred);
    let done = control.control_created(Some(9));
    assert_eq!(
        done,
        CompletionEffect::Ready {
            control: 9,
            flush: Some(Rect { x: 0, y: 0, width: 800, height: 600 }),
        }
    );
    // nothing remains queued, so the flushed bounds cannot be applied again
    assert_eq!(control.queued_bounds_update(), None);
    assert_eq!(control.creation_status(), CreationStatus::Ready);
}

#[test]
fn ready_resize_applies_immediately() {
    let (mut control, _) = new_child_control(7, 42);
    let done = control.control_created(Some(9));
    assert_eq!(done, CompletionEffect::Ready { control: 9, flush: None });
    let eff = control.resize(None, Some((320, 240)), Err(0)).expect("resize succeeds");
    assert_eq!(
        eff.bounds,
        BoundsEffect::Apply { control: 9, bounds: Rect { x: 0, y: 0, width: 320, height: 240 } }
    );
    assert_eq!(control.queued_bounds_update(), None);
}

#[test]
fn fill_window_never_moves_host() {
    let (mut control, _) = new_fill_control(5);
    let eff = control.resize(Some((10, 10)), Some((640, 480)), Err(0)).expect("resize succeeds");
    assert_eq!(eff.placement, None);
    assert_eq!(eff.bounds, BoundsEffect::Deferred);
}

#[test]
fn child_host_placement_matches_bounds() {
    let (mut control, _) = new_child_control(7, 42);
    control.control_created(Some(9));
    let eff = control.resize(None, Some((800, 600)), Err(0)).expect("resize succeeds");
    let placement = eff.placement.expect("a child host window is repositioned");
    assert_eq!(placement.hwnd, 42);
    assert!(!placement.move_window);
    assert!(placement.resize_window);
    assert_eq!((placement.width, placement.height), (800, 600));
    assert_eq!(
        eff.bounds,
        BoundsEffect::Apply { control: 9, bounds: Rect { x: 0, y: 0, width: 800, height: 600 } }
    );
}

#[test]
fn fill_window_rect_recomputed_with_zero_origin() {
    let (mut control, _) = new_fill_control(5);
    control.control_created(Some(9));
    let wr = WindowRect { left: 30, top: 40, right: 530, bottom: 340 };
    let eff = control.resize(None, None, Ok(wr)).expect("resize succeeds");
    assert_eq!(eff.placement, None);
    assert_eq!(
        eff.bounds,
        BoundsEffect::Apply { control: 9, bounds: Rect { x: 0, y: 0, width: 500, height: 300 } }
    );
}

#[test]
fn child_window_rect_keeps_screen_origin() {
    let process = Process::new();
    let (mut control, _) = process
        .create_control(HwndType::ConsumeHwnd(6), (0, 0), (0, 0), Err(0))
        .expect("creation succeeds");
    control.control_created(Some(9));
    let wr = WindowRect { left: 30, top: 40, right: 530, bottom: 340 };
    let eff = control.resize(None, None, Ok(wr)).expect("resize succeeds");
    assert_eq!(
        eff.bounds,
        BoundsEffect::Apply { control: 9, bounds: Rect { x: 30, y: 40, width: 500, height: 300 } }
    );
}

#[test]
fn rect_query_failure_surfaces_io_error() {
    let (mut control, _) = new_fill_control(5);
    let r = control.resize(None, None, Err(87));
    assert_eq!(r.err(), Some(Error::Io(87)));
    // the failed call left nothing queued
    assert_eq!(control.queued_bounds_update(), None);
}

#[test]
fn largest_window_rect_is_accepted() {
    let (mut control, _) = new_fill_control(5);
    control.control_created(Some(9));
    let wr = WindowRect { left: -5, top: -5, right: i32::MAX - 5, bottom: i32::MAX - 5 };
    let eff = control.resize(None, None, Ok(wr)).expect("resize succeeds");
    assert_eq!(
        eff.bounds,
        BoundsEffect::Apply {
            control: 9,
            bounds: Rect { x: 0, y: 0, width: i32::MAX, height: i32::MAX },
        }
    );
}

#[test]
fn failed_creation_never_becomes_ready() {
    let (mut control, _) = new_child_control(7, 42);
    let done = control.control_created(None);
    assert_eq!(done, CompletionEffect::Failed);
    assert_eq!(control.get_inner(), None);
    assert_eq!(control.creation_status(), CreationStatus::Failed);
    // later updates keep deferring and the control never becomes ready
    let eff = control.resize(None, Some((800, 600)), Err(0)).expect("deferral succeeds");
    assert_eq!(eff.bounds, BoundsEffect::Deferred);
    assert_eq!(control.get_inner(), None);
    assert_eq!(control.creation_status(), CreationStatus::Failed);
}

#[test]
fn host_handle_stable_across_lifecycle() {
    let (mut control, _) = new_child_control(7, 42);
    assert_eq!(control.get_hwnd(), 42);
    control.resize(None, Some((800, 600)), Err(0)).expect("deferral succeeds");
    assert_eq!(control.get_hwnd(), 42);
    control.control_created(Some(9));
    assert_eq!(control.get_hwnd(), 42);
    control.resize(Some((1, 2)), None, Ok(WindowRect { left: 0, top: 0, right: 10, bottom: 10 }))
        .expect("resize succeeds");
    assert_eq!(control.get_hwnd(), 42);
}

#[test]
fn host_ownership_follows_policy() {
    let process = Process::new();
    let (fill, _) = process
        .create_control(HwndType::FillWindow(5), (0, 0), (0, 0), Err(0))
        .expect("creation succeeds");
    assert_eq!(fill.owned_host(), None);
    let (consume, _) = process
        .create_control(HwndType::ConsumeHwnd(6), (0, 0), (0, 0), Err(0))
        .expect("creation succeeds");
    assert_eq!(consume.owned_host(), Some(6));
    let (child, _) = process
        .create_control(HwndType::NewHwndInWindow(7), (0, 0), (1, 1), Ok(42))
        .expect("creation succeeds");
    assert_eq!(child.owned_host(), Some(42));
}

#[test]
fn process_exit_is_observed() {
    let mut process = Process::new();
    assert!(!process.has_exited());
    process.note_process_exited();
    assert!(process.has_exited());
}
