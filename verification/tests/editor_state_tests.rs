use nih_plug_slint::editor::{gl_settings, EditorGeometry};
use nih_plug_slint::editor_state::{default_scale_bits, UNIT_SCALE_BITS};
use nih_plug_slint::{default_height, default_width, SlintEditorState};

#[test]
fn defaults_are_400_by_300_at_unit_scale() {
    assert_eq!(default_width(), 400);
    assert_eq!(default_height(), 300);
    assert_eq!(default_scale_bits(), 1.0f32.to_bits());
    let s = SlintEditorState::default();
    assert_eq!(s, SlintEditorState { width: 400, height: 300, scale_factor_bits: 1.0f32.to_bits() });
}

#[test]
fn new_uses_scale_one() {
    let s = SlintEditorState::new(800, 600);
    assert_eq!(s.width, 800);
    assert_eq!(s.height, 600);
    assert_eq!(f32::from_bits(s.scale_factor_bits), 1.0);
    assert_eq!(UNIT_SCALE_BITS, 1.0f32.to_bits());
}

#[test]
fn with_scale_keeps_the_given_scale() {
    let s = SlintEditorState::with_scale(1024, 768, 2.0f32.to_bits());
    assert_eq!(s.width, 1024);
    assert_eq!(s.height, 768);
    assert_eq!(f32::from_bits(s.scale_factor_bits), 2.0);
}

#[test]
fn with_size_replaces_size_and_keeps_scale() {
    let s = SlintEditorState::with_scale(400, 300, 1.5f32.to_bits());
    let t = s.with_size(640, 480);
    assert_eq!(t, SlintEditorState { width: 640, height: 480, scale_factor_bits: 1.5f32.to_bits() });
}

#[test]
fn editor_starts_at_its_default_size() {
    let g = EditorGeometry::new((400, 300));
    assert_eq!(g.size(), (400, 300));
    assert_eq!(g.state, None);
}

#[test]
fn attached_state_overrides_default_size() {
    let saved = SlintEditorState::new(1000, 700);
    let g = EditorGeometry::new((400, 300)).with_state(saved);
    assert_eq!(g.size(), (1000, 700));
    assert_eq!(g.state, Some(saved));
}

#[test]
fn window_settings_follow_the_editor_size() {
    let g = EditorGeometry::new((400, 300)).with_state(SlintEditorState::new(512, 384));
    let w = g.window_settings();
    assert_eq!((w.width, w.height), (512, 384));
    assert!(w.system_scale_factor);
    assert_eq!(w.title, "Plug-in");
    assert_eq!(w.gl, gl_settings());
    assert_eq!((w.gl.version_major, w.gl.version_minor), (3, 2));
    assert_eq!((w.gl.red_bits, w.gl.green_bits, w.gl.blue_bits, w.gl.alpha_bits), (8, 8, 8, 8));
    assert_eq!((w.gl.depth_bits, w.gl.stencil_bits), (24, 8));
    assert_eq!(w.gl.samples, None);
    assert!(w.gl.srgb);
    assert!(w.gl.double_buffer);
    assert!(!w.gl.vsync);
}
