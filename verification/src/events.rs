//! Routing of host window events to the user interface.
//!
//! Pointer positions travel as the bit patterns of their `f32` logical
//! coordinates; scroll amounts and the characters of a key stay with the
//! caller, which applies the action chosen here.

use vstd::prelude::*;

verus! {

/// Pixels scrolled per line when the host reports a scroll in lines.
pub const LINE_SCROLL_PIXELS: u32 = 20;

/// A mouse button as the host reports it.
#[derive(Clone, Copy, Debug, PartialEq, Eq, Structural)]
pub enum MouseButton {
    Left,
    Middle,
    Right,
    Back,
    Forward,
    Other(u8),
}

/// A pointer button as the user interface understands it.
#[derive(Clone, Copy, Debug, PartialEq, Eq, Structural)]
pub enum PointerButton {
    Left,
    Right,
    Middle,
}

/// The unit of a scroll reported by the host.
#[derive(Clone, Copy, Debug, PartialEq, Eq, Structural)]
pub enum ScrollUnit {
    Lines,
    Pixels,
}

/// Whether a key went down or up.
#[derive(Clone, Copy, Debug, PartialEq, Eq, Structural)]
pub enum KeyState {
    Pressed,
    Released,
}

/// A named (non-character) key as the host reports it, with the side for
/// the modifiers that have two.
#[derive(Clone, Copy, Debug, PartialEq, Eq, Structural)]
pub enum HostKey {
    Backspace,
    Tab,
    Enter,
    Escape,
    Delete,
    ShiftLeft,
    ShiftRight,
    ControlLeft,
    ControlRight,
    Alt,
    AltGraph,
    CapsLock,
    MetaLeft,
    MetaRight,
    ArrowUp,
    ArrowDown,
    ArrowLeft,
    ArrowRight,
    /// The function key with the given number (`Function(1)` is F1)
    Function(u8),
    Insert,
    Home,
    End,
    PageUp,
    PageDown,
    ScrollLock,
    Pause,
    PrintScreen,
    ContextMenu,
    /// Any other named key
    Other,
}

/// A named key as the user interface understands it.
#[derive(Clone, Copy, Debug, PartialEq, Eq, Structural)]
pub enum UiKey {
    Backspace,
    Tab,
    Return,
    Escape,
    Delete,
    Shift,
    ShiftR,
    Control,
    ControlR,
    Alt,
    AltGr,
    CapsLock,
    Meta,
    MetaR,
    UpArrow,
    DownArrow,
    LeftArrow,
    RightArrow,
    /// Function key F1 to F24
    Function(u8),
    Insert,
    Home,
    End,
    PageUp,
    PageDown,
    ScrollLock,
    Pause,
    SysReq,
    Menu,
}

/// The key of a keyboard event.
#[derive(Clone, Copy, Debug, PartialEq, Eq, Structural)]
pub enum KeyInput {
    /// A key that produces characters (they stay with the caller)
    Characters,
    /// A named key
    Named(HostKey),
    /// A key the host could not identify
    Unidentified,
}

/// What the user interface receives for a key.
#[derive(Clone, Copy, Debug, PartialEq, Eq, Structural)]
pub enum KeyText {
    /// The characters of the key
    Characters,
    /// The code of a named key
    Named(UiKey),
}

/// The kind of an event that the host delivers to the window.
#[derive(Clone, Copy, Debug, PartialEq, Eq, Structural)]
pub enum InputEvent {
    /// The cursor moved to the logical position whose `f32` bits are given
    CursorMoved { x_bits: u32, y_bits: u32 },
    /// A mouse button went down
    ButtonPressed(MouseButton),
    /// A mouse button went up
    ButtonReleased(MouseButton),
    /// The wheel turned, in the given unit
    WheelScrolled(ScrollUnit),
    /// Any other mouse event (the cursor entering or leaving, dragging)
    OtherMouse,
    /// A key went down or up
    Keyboard { state: KeyState, key: KeyInput },
    /// The window's size or scale factor changed
    WindowResized,
    /// The window gained focus
    WindowFocused,
    /// The window lost focus
    WindowUnfocused,
    /// The window is about to close
    WindowWillClose,
}

/// What the window does with an event. Positions are `f32` bit patterns.
#[derive(Clone, Copy, Debug, PartialEq, Eq, Structural)]
pub enum EventAction {
    /// Move the pointer to the given position (which becomes the last one)
    MovePointer { x_bits: u32, y_bits: u32 },
    /// Press a pointer button at the given position
    PressPointer { button: PointerButton, x_bits: u32, y_bits: u32 },
    /// Release a pointer button at the given position
    ReleasePointer { button: PointerButton, x_bits: u32, y_bits: u32 },
    /// Scroll at the origin by the reported amounts times `pixels_per_unit`
    ScrollPointer { pixels_per_unit: u32 },
    /// Forward the key as pressed or released
    ForwardKey { state: KeyState, text: KeyText },
    /// Take over the scale factor that the host reports and queue its size
    ApplyWindowInfo,
    /// Leave the event to the host
    Ignore,
}

/// Whether the window consumed an event or hands it back to the host.
#[derive(Clone, Copy, Debug, PartialEq, Eq, Structural)]
pub enum EventStatus {
    Captured,
    Ignored,
}

/// An event's action and the status reported back for it.
#[derive(Clone, Copy, Debug, PartialEq, Eq, Structural)]
pub struct EventRoute {
    pub action: EventAction,
    pub status: EventStatus,
}

/// The user-interface button for a host button: left, right and middle map
/// to themselves; the others have none.
pub open spec fn spec_pointer_button(button: MouseButton) -> Option<PointerButton> {
    match button {
        MouseButton::Left => Some(PointerButton::Left),
        MouseButton::Right => Some(PointerButton::Right),
        MouseButton::Middle => Some(PointerButton::Middle),
        _ => None,
    }
}

/// Pixels per reported scroll unit.
pub open spec fn spec_scroll_pixels(unit: ScrollUnit) -> u32 {
    match unit {
        ScrollUnit::Lines => LINE_SCROLL_PIXELS,
        ScrollUnit::Pixels => 1,
    }
}

/// The user-interface key for a named host key: each maps to the key of the
/// same meaning (Enter to Return, AltGraph to AltGr, PrintScreen to SysReq,
/// ContextMenu to Menu, the right-hand modifiers to their `R` forms,
/// F1 to F24 to themselves); other keys have none.
pub open spec fn spec_ui_key(key: HostKey) -> Option<UiKey> {
    match key {
        HostKey::Backspace => Some(UiKey::Backspace),
        HostKey::Tab => Some(UiKey::Tab),
        HostKey::Enter => Some(UiKey::Return),
        HostKey::Escape => Some(UiKey::Escape),
        HostKey::Delete => Some(UiKey::Delete),
        HostKey::ShiftLeft => Some(UiKey::Shift),
        HostKey::ShiftRight => Some(UiKey::ShiftR),
        HostKey::ControlLeft => Some(UiKey::Control),
        HostKey::ControlRight => Some(UiKey::ControlR),
        HostKey::Alt => Some(UiKey::Alt),
        HostKey::AltGraph => Some(UiKey::AltGr),
        HostKey::CapsLock => Some(UiKey::CapsLock),
        HostKey::MetaLeft => Some(UiKey::Meta),
        HostKey::MetaRight => Some(UiKey::MetaR),
        HostKey::ArrowUp => Some(UiKey::UpArrow),
        HostKey::ArrowDown => Some(UiKey::DownArrow),
        HostKey::ArrowLeft => Some(UiKey::LeftArrow),
        HostKey::ArrowRight => Some(UiKey::RightArrow),
        HostKey::Function(n) => if 1 <= n <= 24 {
            Some(UiKey::Function(n))
        } else {
            None
        },
        HostKey::Insert => Some(UiKey::Insert),
        HostKey::Home => Some(UiKey::Home),
        HostKey::End => Some(UiKey::End),
        HostKey::PageUp => Some(UiKey::PageUp),
        HostKey::PageDown => Some(UiKey::PageDown),
        HostKey::ScrollLock => Some(UiKey::ScrollLock),
        HostKey::Pause => Some(UiKey::Pause),
        HostKey::PrintScreen => Some(UiKey::SysReq),
        HostKey::ContextMenu => Some(UiKey::Menu),
        HostKey::Other => None,
    }
}

/// What the user interface receives for a key, if it can represent it.
pub open spec fn spec_key_text(key: KeyInput) -> Option<KeyText> {
    match key {
        KeyInput::Characters => Some(KeyText::Characters),
        KeyInput::Named(k) => match spec_ui_key(k) {
            Some(u) => Some(KeyText::Named(u)),
            None => None,
        },
        KeyInput::Unidentified => None,
    }
}

/// The action taken on an event, given the last cursor position `cursor`
/// (as `f32` bits). Keys the user interface can represent are forwarded;
/// the others are left to the host (which may, for instance, play notes
/// with them).
pub open spec fn spec_event_action(cursor: (u32, u32), event: InputEvent) -> EventAction {
    match event {
        InputEvent::CursorMoved { x_bits, y_bits } => EventAction::MovePointer { x_bits, y_bits },
        InputEvent::ButtonPressed(b) => match spec_pointer_button(b) {
            Some(p) => EventAction::PressPointer { button: p, x_bits: cursor.0, y_bits: cursor.1 },
            None => EventAction::Ignore,
        },
        InputEvent::ButtonReleased(b) => match spec_pointer_button(b) {
            Some(p) => EventAction::ReleasePointer {
                button: p,
                x_bits: cursor.0,
                y_bits: cursor.1,
            },
            None => EventAction::Ignore,
        },
        InputEvent::WheelScrolled(unit) => EventAction::ScrollPointer {
            pixels_per_unit: spec_scroll_pixels(unit),
        },
        InputEvent::Keyboard { state, key } => match spec_key_text(key) {
            Some(text) => EventAction::ForwardKey { state, text },
            None => EventAction::Ignore,
        },
        InputEvent::WindowResized => EventAction::ApplyWindowInfo,
        _ => EventAction::Ignore,
    }
}

/// An event is captured exactly when the window acts on it.
pub open spec fn spec_event_status(action: EventAction) -> EventStatus {
    match action {
        EventAction::Ignore => EventStatus::Ignored,
        _ => EventStatus::Captured,
    }
}

/// The last cursor position after an event: a cursor move sets it, every
/// other event keeps it.
pub open spec fn spec_cursor_after(cursor: (u32, u32), event: InputEvent) -> (u32, u32) {
    match event {
        InputEvent::CursorMoved { x_bits, y_bits } => (x_bits, y_bits),
        _ => cursor,
    }
}

/// The pointer button of the same name as a host button (left, right,
/// middle), written out case by case.
pub open spec fn pointer_button_of(button: MouseButton) -> Option<PointerButton> {
    if button == MouseButton::Left {
        Some(PointerButton::Left)
    } else if button == MouseButton::Right {
        Some(PointerButton::Right)
    } else if button == MouseButton::Middle {
        Some(PointerButton::Middle)
    } else {
        None
    }
}

/// The user-interface key for a named host key, written out case by case.
pub open spec fn ui_key_of(key: HostKey) -> Option<UiKey> {
    if key == HostKey::Backspace {
        Some(UiKey::Backspace)
    } else     if key == HostKey::Tab {
        Some(UiKey::Tab)
    } else     if key == HostKey::Enter {
        Some(UiKey::Return)
    } else     if key == HostKey::Escape {
        Some(UiKey::Escape)
    } else     if key == HostKey::Delete {
        Some(UiKey::Delete)
    } else     if key == HostKey::ShiftLeft {
        Some(UiKey::Shift)
    } else     if key == HostKey::ShiftRight {
        Some(UiKey::ShiftR)
    } else     if key == HostKey::ControlLeft {
        Some(UiKey::Control)
    } else     if key == HostKey::ControlRight {
        Some(UiKey::ControlR)
    } else     if key == HostKey::Alt {
        Some(UiKey::Alt)
    } else     if key == HostKey::AltGraph {
        Some(UiKey::AltGr)
    } else     if key == HostKey::CapsLock {
        Some(UiKey::CapsLock)
    } else     if key == HostKey::MetaLeft {
        Some(UiKey::Meta)
    } else     if key == HostKey::MetaRight {
        Some(UiKey::MetaR)
    } else     if key == HostKey::ArrowUp {
        Some(UiKey::UpArrow)
    } else     if key == HostKey::ArrowDown {
        Some(UiKey::DownArrow)
    } else     if key == HostKey::ArrowLeft {
        Some(UiKey::LeftArrow)
    } else     if key == HostKey::ArrowRight {
        Some(UiKey::RightArrow)
    } else     if key == HostKey::Insert {
        Some(UiKey::Insert)
    } else     if key == HostKey::Home {
        Some(UiKey::Home)
    } else     if key == HostKey::End {
        Some(UiKey::End)
    } else     if key == HostKey::PageUp {
        Some(UiKey::PageUp)
    } else     if key == HostKey::PageDown {
        Some(UiKey::PageDown)
    } else     if key == HostKey::ScrollLock {
        Some(UiKey::ScrollLock)
    } else     if key == HostKey::Pause {
        Some(UiKey::Pause)
    } else     if key == HostKey::PrintScreen {
        Some(UiKey::SysReq)
    } else     if key == HostKey::ContextMenu {
        Some(UiKey::Menu)
    } else {
        match key {
            HostKey::Function(n) => if 1 <= n <= 24 {
                Some(UiKey::Function(n))
            } else {
                None
            },
            _ => None,
        }
    }
}

/// Map a host mouse button to a user-interface pointer button.
pub fn pointer_button(button: MouseButton) -> (p: Option<PointerButton>)
    ensures
        p == spec_pointer_button(button),
        button == MouseButton::Left ==> p == Some(PointerButton::Left),
        button == MouseButton::Right ==> p == Some(PointerButton::Right),
        button == MouseButton::Middle ==> p == Some(PointerButton::Middle),
        !(button == MouseButton::Left || button == MouseButton::Right || button
            == MouseButton::Middle) ==> p == None::<PointerButton>,
{
    match button {
        MouseButton::Left => Some(PointerButton::Left),
        MouseButton::Right => Some(PointerButton::Right),
        MouseButton::Middle => Some(PointerButton::Middle),
        _ => None,
    }
}

/// Pixels per unit of a scroll reported in `unit`.
pub fn scroll_pixels(unit: ScrollUnit) -> (px: u32)
    ensures
        px == spec_scroll_pixels(unit),
        unit == ScrollUnit::Lines ==> px == 20,
        unit == ScrollUnit::Pixels ==> px == 1,
{
    match unit {
        ScrollUnit::Lines => LINE_SCROLL_PIXELS,
        ScrollUnit::Pixels => 1,
    }
}

/// Map a named host key to the user-interface key of the same meaning.
pub fn ui_key(key: HostKey) -> (u: Option<UiKey>)
    ensures
        u == spec_ui_key(key),
        key == HostKey::Backspace ==> u == Some(UiKey::Backspace),
        key == HostKey::Tab ==> u == Some(UiKey::Tab),
        key == HostKey::Enter ==> u == Some(UiKey::Return),
        key == HostKey::Escape ==> u == Some(UiKey::Escape),
        key == HostKey::Delete ==> u == Some(UiKey::Delete),
        key == HostKey::ShiftLeft ==> u == Some(UiKey::Shift),
        key == HostKey::ShiftRight ==> u == Some(UiKey::ShiftR),
        key == HostKey::ControlLeft ==> u == Some(UiKey::Control),
        key == HostKey::ControlRight ==> u == Some(UiKey::ControlR),
        key == HostKey::Alt ==> u == Some(UiKey::Alt),
        key == HostKey::AltGraph ==> u == Some(UiKey::AltGr),
        key == HostKey::CapsLock ==> u == Some(UiKey::CapsLock),
        key == HostKey::MetaLeft ==> u == Some(UiKey::Meta),
        key == HostKey::MetaRight ==> u == Some(UiKey::MetaR),
        key == HostKey::ArrowUp ==> u == Some(UiKey::UpArrow),
        key == HostKey::ArrowDown ==> u == Some(UiKey::DownArrow),
        key == HostKey::ArrowLeft ==> u == Some(UiKey::LeftArrow),
        key == HostKey::ArrowRight ==> u == Some(UiKey::RightArrow),
        key == HostKey::Insert ==> u == Some(UiKey::Insert),
        key == HostKey::Home ==> u == Some(UiKey::Home),
        key == HostKey::End ==> u == Some(UiKey::End),
        key == HostKey::PageUp ==> u == Some(UiKey::PageUp),
        key == HostKey::PageDown ==> u == Some(UiKey::PageDown),
        key == HostKey::ScrollLock ==> u == Some(UiKey::ScrollLock),
        key == HostKey::Pause ==> u == Some(UiKey::Pause),
        key == HostKey::PrintScreen ==> u == Some(UiKey::SysReq),
        key == HostKey::ContextMenu ==> u == Some(UiKey::Menu),
        key == HostKey::Other ==> u == None::<UiKey>,
        (match key {
            HostKey::Function(n) => (1 <= n <= 24 ==> u == Some(UiKey::Function(n))) && (!(1 <= n
                <= 24) ==> u == None::<UiKey>),
            _ => true,
        }),
{
    match key {
        HostKey::Backspace => Some(UiKey::Backspace),
        HostKey::Tab => Some(UiKey::Tab),
        HostKey::Enter => Some(UiKey::Return),
        HostKey::Escape => Some(UiKey::Escape),
        HostKey::Delete => Some(UiKey::Delete),
        HostKey::ShiftLeft => Some(UiKey::Shift),
        HostKey::ShiftRight => Some(UiKey::ShiftR),
        HostKey::ControlLeft => Some(UiKey::Control),
        HostKey::ControlRight => Some(UiKey::ControlR),
        HostKey::Alt => Some(UiKey::Alt),
        HostKey::AltGraph => Some(UiKey::AltGr),
        HostKey::CapsLock => Some(UiKey::CapsLock),
        HostKey::MetaLeft => Some(UiKey::Meta),
        HostKey::MetaRight => Some(UiKey::MetaR),
        HostKey::ArrowUp => Some(UiKey::UpArrow),
        HostKey::ArrowDown => Some(UiKey::DownArrow),
        HostKey::ArrowLeft => Some(UiKey::LeftArrow),
        HostKey::ArrowRight => Some(UiKey::RightArrow),
        HostKey::Function(n) => if 1 <= n && n <= 24 {
            Some(UiKey::Function(n))
        } else {
            None
        },
        HostKey::Insert => Some(UiKey::Insert),
        HostKey::Home => Some(UiKey::Home),
        HostKey::End => Some(UiKey::End),
        HostKey::PageUp => Some(UiKey::PageUp),
        HostKey::PageDown => Some(UiKey::PageDown),
        HostKey::ScrollLock => Some(UiKey::ScrollLock),
        HostKey::Pause => Some(UiKey::Pause),
        HostKey::PrintScreen => Some(UiKey::SysReq),
        HostKey::ContextMenu => Some(UiKey::Menu),
        HostKey::Other => None,
    }
}

/// What the user interface receives for a key, if it can represent it.
pub fn key_text(key: KeyInput) -> (t: Option<KeyText>)
    ensures
        t == spec_key_text(key),
        key == KeyInput::Characters ==> t == Some(KeyText::Characters),
        key == KeyInput::Unidentified ==> t == None::<KeyText>,
        (match key {
            KeyInput::Named(k) => t == match ui_key_of(k) {
                Some(u) => Some(KeyText::Named(u)),
                None => None,
            },
            _ => true,
        }),
{
    match key {
        KeyInput::Characters => Some(KeyText::Characters),
        KeyInput::Named(k) => match ui_key(k) {
            Some(u) => Some(KeyText::Named(u)),
            None => None,
        },
        KeyInput::Unidentified => None,
    }
}

/// Decide what the window does with an event, given the last cursor
/// position, and what it reports to the host.
pub fn route_event(cursor: (u32, u32), event: InputEvent) -> (route: EventRoute)
    ensures
        route.action == spec_event_action(cursor, event),
        route.status == spec_event_status(route.action),
        route.status == EventStatus::Ignored <==> route.action == EventAction::Ignore,
        route.status == EventStatus::Captured <==> route.action != EventAction::Ignore,
        (match event {
            InputEvent::CursorMoved { x_bits, y_bits } => route.action
                == EventAction::MovePointer { x_bits, y_bits },
            InputEvent::ButtonPressed(b) => match pointer_button_of(b) {
                Some(p) => route.action == EventAction::PressPointer {
                    button: p,
                    x_bits: cursor.0,
                    y_bits: cursor.1,
                },
                None => route.action == EventAction::Ignore,
            },
            InputEvent::ButtonReleased(b) => match pointer_button_of(b) {
                Some(p) => route.action == EventAction::ReleasePointer {
                    button: p,
                    x_bits: cursor.0,
                    y_bits: cursor.1,
                },
                None => route.action == EventAction::Ignore,
            },
            InputEvent::WheelScrolled(ScrollUnit::Lines) => route.action
                == EventAction::ScrollPointer { pixels_per_unit: 20 },
            InputEvent::WheelScrolled(ScrollUnit::Pixels) => route.action
                == EventAction::ScrollPointer { pixels_per_unit: 1 },
            InputEvent::Keyboard { state, key } => match key {
                KeyInput::Characters => route.action == EventAction::ForwardKey {
                    state,
                    text: KeyText::Characters,
                },
                KeyInput::Named(k) => match ui_key_of(k) {
                    Some(u) => route.action == EventAction::ForwardKey {
                        state,
                        text: KeyText::Named(u),
                    },
                    None => route.action == EventAction::Ignore,
                },
                KeyInput::Unidentified => route.action == EventAction::Ignore,
            },
            InputEvent::WindowResized => route.action == EventAction::ApplyWindowInfo,
            _ => route.action == EventAction::Ignore,
        }),
{
    let action = match event {
        InputEvent::CursorMoved { x_bits, y_bits } => EventAction::MovePointer { x_bits, y_bits },
        InputEvent::ButtonPressed(b) => match pointer_button(b) {
            Some(p) => EventAction::PressPointer { button: p, x_bits: cursor.0, y_bits: cursor.1 },
            None => EventAction::Ignore,
        },
        InputEvent::ButtonReleased(b) => match pointer_button(b) {
            Some(p) => EventAction::ReleasePointer {
                button: p,
                x_bits: cursor.0,
                y_bits: cursor.1,
            },
            None => EventAction::Ignore,
        },
        InputEvent::WheelScrolled(unit) => EventAction::ScrollPointer {
            pixels_per_unit: scroll_pixels(unit),
        },
        InputEvent::Keyboard { state, key } => match key_text(key) {
            Some(text) => EventAction::ForwardKey { state, text },
            None => EventAction::Ignore,
        },
        InputEvent::WindowResized => EventAction::ApplyWindowInfo,
        _ => EventAction::Ignore,
    };
    let status = match action {
        EventAction::Ignore => EventStatus::Ignored,
        _ => EventStatus::Captured,
    };
    EventRoute { action, status }
}

} // verus!
