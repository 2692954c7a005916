use nih_plug_slint::events::{
    key_text, pointer_button, route_event, scroll_pixels, ui_key, EventAction, EventStatus,
    HostKey, InputEvent, KeyInput, KeyState, KeyText, MouseButton, PointerButton, ScrollUnit, UiKey,
    LINE_SCROLL_PIXELS,
};
use nih_plug_slint::platform::{
    current_adapter, is_valid_wgl_proc_address, renderer_access, resolve_windows_proc_address,
    PlatformFault, RendererAccess, RendererFault,
};

const AT: (u32, u32) = (0x4120_0000, 0x41a0_0000); // (10.0, 20.0)

fn action(e: InputEvent) -> EventAction {
    route_event(AT, e).action
}

fn status(e: InputEvent) -> EventStatus {
    route_event(AT, e).status
}

#[test]
fn cursor_moves_are_captured() {
    let moved = InputEvent::CursorMoved { x_bits: 1.5f32.to_bits(), y_bits: 2.5f32.to_bits() };
    assert_eq!(action(moved), EventAction::MovePointer { x_bits: 1.5f32.to_bits(), y_bits: 2.5f32.to_bits() });
    assert_eq!(status(moved), EventStatus::Captured);
}

#[test]
fn primary_buttons_are_forwarded() {
    assert_eq!(pointer_button(MouseButton::Left), Some(PointerButton::Left));
    assert_eq!(pointer_button(MouseButton::Right), Some(PointerButton::Right));
    assert_eq!(pointer_button(MouseButton::Middle), Some(PointerButton::Middle));
    assert_eq!(
        action(InputEvent::ButtonPressed(MouseButton::Right)),
        EventAction::PressPointer { button: PointerButton::Right, x_bits: AT.0, y_bits: AT.1 }
    );
    assert_eq!(
        action(InputEvent::ButtonReleased(MouseButton::Middle)),
        EventAction::ReleasePointer { button: PointerButton::Middle, x_bits: AT.0, y_bits: AT.1 }
    );
    assert_eq!(status(InputEvent::ButtonPressed(MouseButton::Left)), EventStatus::Captured);
}

#[test]
fn other_buttons_are_ignored() {
    for b in [MouseButton::Back, MouseButton::Forward, MouseButton::Other(7)] {
        assert_eq!(pointer_button(b), None);
        assert_eq!(action(InputEvent::ButtonPressed(b)), EventAction::Ignore);
        assert_eq!(status(InputEvent::ButtonPressed(b)), EventStatus::Ignored);
        assert_eq!(status(InputEvent::ButtonReleased(b)), EventStatus::Ignored);
    }
}

#[test]
fn line_scrolls_are_scaled_by_twenty() {
    assert_eq!(LINE_SCROLL_PIXELS, 20);
    assert_eq!(scroll_pixels(ScrollUnit::Lines), 20);
    assert_eq!(scroll_pixels(ScrollUnit::Pixels), 1);
    assert_eq!(
        action(InputEvent::WheelScrolled(ScrollUnit::Lines)),
        EventAction::ScrollPointer { pixels_per_unit: 20 }
    );
    assert_eq!(
        action(InputEvent::WheelScrolled(ScrollUnit::Pixels)),
        EventAction::ScrollPointer { pixels_per_unit: 1 }
    );
    assert_eq!(status(InputEvent::WheelScrolled(ScrollUnit::Pixels)), EventStatus::Captured);
}

#[test]
fn window_resize_is_captured() {
    assert_eq!(action(InputEvent::WindowResized), EventAction::ApplyWindowInfo);
    assert_eq!(status(InputEvent::WindowResized), EventStatus::Captured);
}

#[test]
fn textless_keys_focus_close_and_other_mouse_events_are_ignored() {
    for e in [
        InputEvent::Keyboard { state: KeyState::Pressed, key: KeyInput::Unidentified },
        InputEvent::Keyboard { state: KeyState::Released, key: KeyInput::Named(HostKey::Other) },
        InputEvent::Keyboard { state: KeyState::Pressed, key: KeyInput::Named(HostKey::Function(25)) },
        InputEvent::WindowFocused,
        InputEvent::WindowUnfocused,
        InputEvent::WindowWillClose,
        InputEvent::OtherMouse,
    ] {
        assert_eq!(action(e), EventAction::Ignore);
        assert_eq!(status(e), EventStatus::Ignored);
    }
}

#[test]
fn keys_with_text_are_forwarded() {
    let pressed = InputEvent::Keyboard { state: KeyState::Pressed, key: KeyInput::Characters };
    let released = InputEvent::Keyboard { state: KeyState::Released, key: KeyInput::Named(HostKey::Enter) };
    assert_eq!(action(pressed), EventAction::ForwardKey { state: KeyState::Pressed, text: KeyText::Characters });
    assert_eq!(status(pressed), EventStatus::Captured);
    assert_eq!(
        action(released),
        EventAction::ForwardKey { state: KeyState::Released, text: KeyText::Named(UiKey::Return) }
    );
    assert_eq!(status(released), EventStatus::Captured);
}

#[test]
fn named_keys_map_to_their_ui_keys() {
    assert_eq!(ui_key(HostKey::Function(1)), Some(UiKey::Function(1)));
    assert_eq!(ui_key(HostKey::Function(12)), Some(UiKey::Function(12)));
    assert_eq!(ui_key(HostKey::Function(24)), Some(UiKey::Function(24)));
    assert_eq!(ui_key(HostKey::Function(0)), None);
    assert_eq!(ui_key(HostKey::Function(25)), None);
    assert_eq!(ui_key(HostKey::CapsLock), Some(UiKey::CapsLock));
    assert_eq!(ui_key(HostKey::ShiftRight), Some(UiKey::ShiftR));
    assert_eq!(ui_key(HostKey::ControlLeft), Some(UiKey::Control));
    assert_eq!(ui_key(HostKey::MetaRight), Some(UiKey::MetaR));
    assert_eq!(ui_key(HostKey::AltGraph), Some(UiKey::AltGr));
    assert_eq!(ui_key(HostKey::PrintScreen), Some(UiKey::SysReq));
    assert_eq!(ui_key(HostKey::ContextMenu), Some(UiKey::Menu));
    assert_eq!(ui_key(HostKey::ArrowLeft), Some(UiKey::LeftArrow));
    assert_eq!(ui_key(HostKey::Other), None);
    assert_eq!(key_text(KeyInput::Unidentified), None);
    assert_eq!(key_text(KeyInput::Characters), Some(KeyText::Characters));
}

#[test]
fn adapter_lookup() {
    assert_eq!(current_adapter(Some(5u8)), Ok(5u8));
    assert_eq!(current_adapter::<u8>(None), Err(PlatformFault::NoAdapterSet));
    assert_eq!(PlatformFault::NoAdapterSet.message(), "No adapter set");
}

#[test]
fn renderer_is_not_created_before_the_context() {
    assert_eq!(renderer_access(false, false), Err(RendererFault::ContextNotReady));
    assert_eq!(renderer_access(true, false), Ok(RendererAccess::CreateNow));
    assert_eq!(renderer_access(true, true), Ok(RendererAccess::UseExisting));
    assert_eq!(renderer_access(false, true), Ok(RendererAccess::UseExisting));
}

#[test]
fn wgl_failure_sentinels_are_rejected() {
    for a in [0usize, 1, 2, 3, usize::MAX] {
        assert!(!is_valid_wgl_proc_address(a));
    }
    assert!(is_valid_wgl_proc_address(4));
    assert!(is_valid_wgl_proc_address(0x7ff0_1234));
}

#[test]
fn windows_address_resolution() {
    assert_eq!(resolve_windows_proc_address(0x1000, 0x2000), 0x1000);
    assert_eq!(resolve_windows_proc_address(0, 0x2000), 0x2000);
    assert_eq!(resolve_windows_proc_address(0, 3), 0);
    assert_eq!(resolve_windows_proc_address(0, usize::MAX), 0);
    assert_eq!(resolve_windows_proc_address(0, 0), 0);
}
