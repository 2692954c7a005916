use nih_plug_slint::editor::EditorGeometry;
use nih_plug_slint::events::{EventAction, EventStatus, InputEvent, MouseButton, PointerButton};
use nih_plug_slint::handler::{FramePlan, HandlerState};
use nih_plug_slint::redraw::RedrawState;
use nih_plug_slint::resize_queue::{new_resize_queue, queue_resize, take_latest_resize};
use nih_plug_slint::SlintEditorState;

#[test]
fn queue_keeps_requests_in_order() {
    let mut q = Vec::new();
    queue_resize(&mut q, 400, 300);
    queue_resize(&mut q, 800, 600);
    assert_eq!(q, vec![(400, 300), (800, 600)]);
}

#[test]
fn draining_takes_the_latest_and_empties() {
    let mut q = vec![(400, 300), (800, 600), (1200, 900)];
    assert_eq!(take_latest_resize(&mut q), Some((1200, 900)));
    assert!(q.is_empty());
    assert_eq!(take_latest_resize(&mut q), None);
}

#[test]
fn window_opens_at_editor_size_unscaled_and_hidden() {
    let g = EditorGeometry::new((400, 300)).with_state(SlintEditorState::with_scale(640, 480, 2.0f32.to_bits()));
    let h = HandlerState::open(&g);
    assert_eq!((h.width, h.height), (640, 480));
    assert_eq!(f32::from_bits(h.scale_factor_bits), 1.0);
    assert!(!h.window_shown);
    assert_eq!(h.state, g.state);
}

#[test]
fn resize_saves_into_attached_state() {
    let saved = SlintEditorState::with_scale(400, 300, 1.25f32.to_bits());
    let mut h = HandlerState::open(&EditorGeometry::new((100, 100)).with_state(saved));
    h.resize(800, 600);
    assert_eq!((h.width, h.height), (800, 600));
    assert_eq!(h.state, Some(SlintEditorState::with_scale(800, 600, 1.25f32.to_bits())));
    // a later editor instance opens at the saved size
    let reopened = EditorGeometry::new((400, 300)).with_state(h.state.unwrap());
    assert_eq!(reopened.size(), (800, 600));
}

#[test]
fn resize_without_state_saves_nothing() {
    let mut h = HandlerState::open(&EditorGeometry::new((400, 300)));
    h.resize(500, 250);
    assert_eq!((h.width, h.height), (500, 250));
    assert_eq!(h.state, None);
    assert_eq!(h.geometry(), EditorGeometry { width: 500, height: 250, state: None });
}

#[test]
fn new_window_has_no_pending_resize() {
    let q = new_resize_queue();
    assert!(q.is_empty());
}

#[test]
fn host_resize_is_queued_then_applied_and_saved() {
    let saved = SlintEditorState::new(400, 300);
    let mut h = HandlerState::open(&EditorGeometry::new((400, 300)).with_state(saved));
    let mut q = new_resize_queue();
    h.handle_window_info(&mut q, 1000, 800, 2.0f32.to_bits());
    assert_eq!(q, vec![(1000, 800)]);
    assert_eq!((h.width, h.height), (400, 300));
    assert_eq!(f32::from_bits(h.scale_factor_bits), 2.0);
    assert_eq!(h.process_pending_resizes(&mut q), Some((1000, 800)));
    assert_eq!((h.width, h.height), (1000, 800));
    assert_eq!(h.state, Some(SlintEditorState::new(1000, 800)));
    let reopened = EditorGeometry::new((400, 300)).with_state(h.state.unwrap());
    assert_eq!(reopened.size(), (1000, 800));
}

#[test]
fn host_echo_of_the_current_size_is_not_queued() {
    let mut h = HandlerState::open(&EditorGeometry::new((400, 300)));
    let mut q = new_resize_queue();
    // the window's own size reported back, nothing pending
    h.handle_window_info(&mut q, 400, 300, 1.0f32.to_bits());
    assert!(q.is_empty());
}

#[test]
fn every_other_host_report_is_queued() {
    let mut h = HandlerState::open(&EditorGeometry::new((400, 300)));
    let mut q = new_resize_queue();
    queue_resize(&mut q, 640, 480);
    // the size already pending is reported: still queued
    h.handle_window_info(&mut q, 640, 480, 1.0f32.to_bits());
    assert_eq!(q, vec![(640, 480), (640, 480)]);
    // the current size while something is pending: queued
    h.handle_window_info(&mut q, 400, 300, 1.0f32.to_bits());
    assert_eq!(q, vec![(640, 480), (640, 480), (400, 300)]);
    assert_eq!(h.process_pending_resizes(&mut q), Some((400, 300)));
}

#[test]
fn processing_applies_only_the_latest_request() {
    let saved = SlintEditorState::new(400, 300);
    let mut h = HandlerState::open(&EditorGeometry::new((400, 300)).with_state(saved));
    let mut q = Vec::new();
    queue_resize(&mut q, 400, 300);
    queue_resize(&mut q, 800, 600);
    assert_eq!(h.process_pending_resizes(&mut q), Some((800, 600)));
    assert!(q.is_empty());
    assert_eq!((h.width, h.height), (800, 600));
    assert_eq!(h.state, Some(SlintEditorState::new(800, 600)));
    let before = h;
    assert_eq!(h.process_pending_resizes(&mut q), None);
    assert_eq!(h, before);
}

#[test]
fn first_frame_shows_once() {
    let mut h = HandlerState::open(&EditorGeometry::new((400, 300)));
    assert_eq!(h.frame_plan(false), FramePlan { create_renderer: true, show_window: true });
    assert!(!h.window_shown);
    h.mark_shown();
    assert!(h.window_shown);
    assert_eq!(h.frame_plan(true), FramePlan { create_renderer: false, show_window: false });
    assert_eq!(h.frame_plan(false), FramePlan { create_renderer: false, show_window: false });
}

#[test]
fn first_frame_reuses_an_existing_renderer() {
    let h = HandlerState::open(&EditorGeometry::new((400, 300)));
    assert_eq!(h.frame_plan(true), FramePlan { create_renderer: false, show_window: true });
}

#[test]
fn frames_render_only_on_change() {
    let mut r = RedrawState::new();
    assert!(r.take_frame(false)); // the first frame draws the window
    assert!(!r.take_frame(false)); // nothing changed
    assert!(r.take_frame(true)); // an animation runs
    assert!(!r.take_frame(false));
    r.request_redraw();
    assert!(r.take_frame(false));
    assert!(!r.take_frame(false));
}

#[test]
fn buttons_land_at_the_last_cursor_position() {
    let mut h = HandlerState::open(&EditorGeometry::new((400, 300)));
    // before any move, at the origin
    let r = h.on_event(InputEvent::ButtonPressed(MouseButton::Left));
    assert_eq!(r.action, EventAction::PressPointer { button: PointerButton::Left, x_bits: 0, y_bits: 0 });
    assert_eq!(r.status, EventStatus::Captured);
    let (x, y) = (12.5f32.to_bits(), 40.0f32.to_bits());
    let r = h.on_event(InputEvent::CursorMoved { x_bits: x, y_bits: y });
    assert_eq!(r.action, EventAction::MovePointer { x_bits: x, y_bits: y });
    assert_eq!((h.cursor_x_bits, h.cursor_y_bits), (x, y));
    h.on_event(InputEvent::WindowFocused);
    let r = h.on_event(InputEvent::ButtonReleased(MouseButton::Right));
    assert_eq!(r.action, EventAction::ReleasePointer { button: PointerButton::Right, x_bits: x, y_bits: y });
    assert_eq!((h.cursor_x_bits, h.cursor_y_bits), (x, y));
}
