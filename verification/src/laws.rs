//! Properties that hold across the operations of the editor and its window.

use vstd::prelude::*;
use crate::editor::EditorGeometry;
use crate::editor_state::SlintEditorState;
use crate::handler::{spec_persist, HandlerState};
use crate::events::{
    spec_event_action, spec_event_status, EventAction, EventStatus, InputEvent, MouseButton,
    PointerButton,
};
use crate::redraw::RedrawState;
use crate::resize_queue::spec_latest_resize;

verus! {

/// A resize of a window whose editor has a persistent state saves the new
/// size into that state and keeps its scale factor; an editor created later
/// from the saved state, whatever its default size, opens at the new size.
pub proof fn lemma_resize_persists_across_instances(
    saved: SlintEditorState,
    default_size: (u32, u32),
    other_default: (u32, u32),
    width: u32,
    height: u32,
)
    ensures
        ({
            let window = HandlerState::spec_open(
                EditorGeometry::spec_new(default_size).spec_with_state(saved),
            ).spec_resize(width, height);
            &&& window.state == Some(
                SlintEditorState {
                    width,
                    height,
                    scale_factor_bits: saved.scale_factor_bits,
                },
            )
            &&& EditorGeometry::spec_new(other_default).spec_with_state(window.state->0).width
                == width
            &&& EditorGeometry::spec_new(other_default).spec_with_state(window.state->0).height
                == height
        }),
{
}

/// Without a persistent state a resize saves nothing.
pub proof fn lemma_resize_without_state_saves_nothing(window: HandlerState, width: u32, height: u32)
    requires
        window.state is None,
    ensures
        window.spec_resize(width, height).state is None,
{
}

/// The editor reports the size that its open window was last resized to,
/// and holds the state the window saved.
pub proof fn lemma_editor_reports_window_size(
    geometry: EditorGeometry,
    width: u32,
    height: u32,
)
    ensures
        HandlerState::spec_open(geometry).spec_resize(width, height).spec_geometry() == (
        EditorGeometry { width, height, state: spec_persist(geometry.state, width, height) }),
{
}

/// Only the last of two resizes matters: the earlier one leaves no trace.
pub proof fn lemma_last_resize_wins(
    window: HandlerState,
    first: (u32, u32),
    second: (u32, u32),
)
    ensures
        window.spec_resize(first.0, first.1).spec_resize(second.0, second.1) == window.spec_resize(
            second.0,
            second.1,
        ),
{
}

/// A resize keeps the scale factor and the shown flag; a scale report from the
/// host keeps the size, the saved state and the shown flag.
pub proof fn lemma_resize_and_window_info_frames(
    window: HandlerState,
    width: u32,
    height: u32,
    scale_factor_bits: u32,
)
    ensures
        window.spec_resize(width, height).scale_factor_bits == window.scale_factor_bits,
        window.spec_resize(width, height).window_shown == window.window_shown,
        window.spec_window_info(scale_factor_bits).width == window.width,
        window.spec_window_info(scale_factor_bits).height == window.height,
        window.spec_window_info(scale_factor_bits).state == window.state,
        window.spec_window_info(scale_factor_bits).window_shown == window.window_shown,
{
}

/// The persistent state, when attached, holds the window's current size.
pub open spec fn spec_state_in_sync(window: HandlerState) -> bool {
    match window.state {
        Some(s) => s.width == window.width && s.height == window.height,
        None => true,
    }
}

/// A window opened for an editor with an attached state starts in sync with
/// it, and resizes, scale reports and frames keep it in sync.
pub proof fn lemma_state_stays_in_sync(
    default_size: (u32, u32),
    saved: SlintEditorState,
    window: HandlerState,
    width: u32,
    height: u32,
    scale_factor_bits: u32,
)
    requires
        spec_state_in_sync(window),
    ensures
        spec_state_in_sync(
            HandlerState::spec_open(EditorGeometry::spec_new(default_size).spec_with_state(saved)),
        ),
        spec_state_in_sync(window.spec_resize(width, height)),
        spec_state_in_sync(window.spec_window_info(scale_factor_bits)),
        spec_state_in_sync(window.spec_after_frame()),
{
}

/// A size the host reports (the user dragged the window) is applied by the
/// next drain of the queue and saved: afterwards the window has that size,
/// the attached state holds it, and an editor created later from the state
/// opens at it.
pub proof fn lemma_host_resize_is_saved(
    window: HandlerState,
    queue: Seq<(u32, u32)>,
    width: u32,
    height: u32,
    scale_factor_bits: u32,
    other_default: (u32, u32),
)
    requires
        spec_state_in_sync(window),
    ensures
        ({
            let reported = window.spec_window_info(scale_factor_bits);
            let queued = window.spec_queue_after_report(queue, width, height);
            let drained = match spec_latest_resize(queued) {
                Some(size) => reported.spec_resize(size.0, size.1),
                None => reported,
            };
            &&& drained.width == width
            &&& drained.height == height
            &&& drained.scale_factor_bits == scale_factor_bits
            &&& spec_state_in_sync(drained)
            &&& (drained.state matches Some(s) ==> EditorGeometry::spec_new(
                other_default,
            ).spec_with_state(s).width == width && EditorGeometry::spec_new(
                other_default,
            ).spec_with_state(s).height == height)
        }),
{
}

/// Draining the queue after queueing a request applies exactly that request,
/// as if it alone had been made.
pub proof fn lemma_queued_request_applied(
    window: HandlerState,
    queue: Seq<(u32, u32)>,
    width: u32,
    height: u32,
)
    ensures
        spec_latest_resize(queue.push((width, height))) == Some((width, height)),
        ({
            let applied = spec_latest_resize(queue.push((width, height)));
            window.spec_resize((applied->0).0, (applied->0).1) == window.spec_resize(width, height)
        }),
{
}

/// The user interface is shown on the first frame of a window and on no
/// later one; the renderer is created at most on that first frame.
pub proof fn lemma_shown_exactly_once(
    geometry: EditorGeometry,
    later: HandlerState,
    renderer_exists: bool,
)
    requires
        later.window_shown,
    ensures
        HandlerState::spec_open(geometry).spec_frame_plan(renderer_exists).show_window,
        HandlerState::spec_open(geometry).spec_after_frame().window_shown,
        !later.spec_frame_plan(renderer_exists).show_window,
        !later.spec_frame_plan(renderer_exists).create_renderer,
        later.spec_after_frame() == later,
        !HandlerState::spec_open(geometry).spec_after_frame().spec_frame_plan(
            renderer_exists,
        ).show_window,
{
}

/// `n` frames of a window: each creates the renderer and shows the user
/// interface as its plan says, then records the window as shown. Gives the
/// final window, whether a renderer exists, and how many frames showed the
/// interface and created the renderer.
pub open spec fn spec_frames(window: HandlerState, renderer_exists: bool, n: nat) -> (
    HandlerState,
    bool,
    nat,
    nat,
)
    decreases n,
{
    if n == 0 {
        (window, renderer_exists, 0, 0)
    } else {
        let plan = window.spec_frame_plan(renderer_exists);
        let next = if plan.show_window {
            window.spec_after_frame()
        } else {
            window
        };
        let rest = spec_frames(next, renderer_exists || plan.create_renderer, (n - 1) as nat);
        (
            rest.0,
            rest.1,
            rest.2 + if plan.show_window {
                1nat
            } else {
                0nat
            },
            rest.3 + if plan.create_renderer {
                1nat
            } else {
                0nat
            },
        )
    }
}

/// Frames of a window already shown show nothing and create nothing.
pub proof fn lemma_frames_after_shown(window: HandlerState, renderer_exists: bool, n: nat)
    requires
        window.window_shown,
    ensures
        spec_frames(window, renderer_exists, n) == (window, renderer_exists, 0nat, 0nat),
    decreases n,
{
    if n > 0 {
        lemma_frames_after_shown(window, renderer_exists, (n - 1) as nat);
    }
}

/// Over any number `n >= 1` of frames of a window not yet shown, the user
/// interface is shown exactly once, in the first frame, once the renderer
/// exists; the renderer is created at most once (exactly when none existed),
/// and afterwards the window counts as shown and the renderer exists.
pub proof fn lemma_shown_once_over_frames(window: HandlerState, renderer_exists: bool, n: nat)
    requires
        !window.window_shown,
        n >= 1,
    ensures
        window.spec_frame_plan(renderer_exists).show_window,
        window.spec_frame_plan(renderer_exists).create_renderer == !renderer_exists,
        spec_frames(window, renderer_exists, n).2 == 1,
        spec_frames(window, renderer_exists, n).3 == if renderer_exists {
            0nat
        } else {
            1nat
        },
        spec_frames(window, renderer_exists, n).0.window_shown,
        spec_frames(window, renderer_exists, n).1,
{
    lemma_frames_after_shown(window.spec_after_frame(), true, (n - 1) as nat);
}

/// The state of a window after a sequence of events, in order.
pub open spec fn spec_after_events(window: HandlerState, events: Seq<InputEvent>) -> HandlerState
    decreases events.len(),
{
    if events.len() == 0 {
        window
    } else {
        spec_after_events(window, events.drop_last()).spec_after_event(events.last())
    }
}

/// The position of the last cursor move in `events`, or `cursor` if there
/// is none.
pub open spec fn spec_last_move(cursor: (u32, u32), events: Seq<InputEvent>) -> (u32, u32)
    decreases events.len(),
{
    if events.len() == 0 {
        cursor
    } else {
        match events.last() {
            InputEvent::CursorMoved { x_bits, y_bits } => (x_bits, y_bits),
            _ => spec_last_move(cursor, events.drop_last()),
        }
    }
}

/// After any sequence of events the window's cursor is where the last cursor
/// move put it (the origin, for a window just opened, if none did), and a
/// press or release of the left, right or middle button lands there, is
/// captured, and leaves the cursor where it was.
pub proof fn lemma_buttons_land_at_last_cursor(
    window: HandlerState,
    events: Seq<InputEvent>,
    button: MouseButton,
    pressed: bool,
)
    requires
        button == MouseButton::Left || button == MouseButton::Right || button
            == MouseButton::Middle,
    ensures
        ({
            let now = spec_after_events(window, events);
            let at = spec_last_move((window.cursor_x_bits, window.cursor_y_bits), events);
            let event = if pressed {
                InputEvent::ButtonPressed(button)
            } else {
                InputEvent::ButtonReleased(button)
            };
            let p = if button == MouseButton::Left {
                PointerButton::Left
            } else if button == MouseButton::Right {
                PointerButton::Right
            } else {
                PointerButton::Middle
            };
            &&& (now.cursor_x_bits, now.cursor_y_bits) == at
            &&& spec_event_action((now.cursor_x_bits, now.cursor_y_bits), event) == if pressed {
                EventAction::PressPointer { button: p, x_bits: at.0, y_bits: at.1 }
            } else {
                EventAction::ReleasePointer { button: p, x_bits: at.0, y_bits: at.1 }
            }
            &&& now.spec_after_event(event) == now
        }),
    decreases events.len(),
{
    if events.len() > 0 {
        lemma_buttons_land_at_last_cursor(window, events.drop_last(), button, pressed);
    }
}

/// An event is handed back to the host exactly when the window does nothing
/// with it; in particular a press or a release of the left, right or middle
/// button, wherever the cursor is, is dispatched to the user interface as a
/// press or release of the same button at that position, and captured.
pub proof fn lemma_pointer_buttons_are_captured(
    cursor: (u32, u32),
    button: MouseButton,
    action: EventAction,
)
    ensures
        spec_event_status(action) == EventStatus::Ignored <==> action == EventAction::Ignore,
        spec_event_status(action) == EventStatus::Captured <==> action != EventAction::Ignore,
        button == MouseButton::Left || button == MouseButton::Right || button
            == MouseButton::Middle ==> {
            let p = if button == MouseButton::Left {
                PointerButton::Left
            } else if button == MouseButton::Right {
                PointerButton::Right
            } else {
                PointerButton::Middle
            };
            &&& spec_event_action(cursor, InputEvent::ButtonPressed(button))
                == EventAction::PressPointer { button: p, x_bits: cursor.0, y_bits: cursor.1 }
            &&& spec_event_action(cursor, InputEvent::ButtonReleased(button))
                == EventAction::ReleasePointer { button: p, x_bits: cursor.0, y_bits: cursor.1 }
            &&& spec_event_status(spec_event_action(cursor, InputEvent::ButtonPressed(button)))
                == EventStatus::Captured
            &&& spec_event_status(spec_event_action(cursor, InputEvent::ButtonReleased(button)))
                == EventStatus::Captured
        },
{
}

/// An editor created with a default size has exactly that size and no
/// persistent state; attaching a state gives it the state's size.
pub proof fn lemma_new_editor_has_given_size(size: (u32, u32), saved: SlintEditorState)
    ensures
        EditorGeometry::spec_new(size).width == size.0,
        EditorGeometry::spec_new(size).height == size.1,
        EditorGeometry::spec_new(size).state is None,
        EditorGeometry::spec_new(size).spec_with_state(saved).width == saved.width,
        EditorGeometry::spec_new(size).spec_with_state(saved).height == saved.height,
        EditorGeometry::spec_new(size).spec_with_state(saved).state == Some(saved),
{
}

/// The window opened for an editor, with or without a state, has the
/// editor's size and state, scale 1.0 (bits `0x3F80_0000`), is not shown yet
/// and has its cursor at the origin; the editor reports that same size.
pub proof fn lemma_window_opens_at_editor_size(geometry: EditorGeometry)
    ensures
        HandlerState::spec_open(geometry).width == geometry.width,
        HandlerState::spec_open(geometry).height == geometry.height,
        HandlerState::spec_open(geometry).state == geometry.state,
        HandlerState::spec_open(geometry).scale_factor_bits == 0x3F80_0000u32,
        !HandlerState::spec_open(geometry).window_shown,
        HandlerState::spec_open(geometry).cursor_x_bits == 0,
        HandlerState::spec_open(geometry).cursor_y_bits == 0,
        HandlerState::spec_open(geometry).spec_geometry() == geometry,
{
}

/// After a redraw request, however many came before and whatever the state,
/// the next frame renders; after a frame nothing is pending.
pub proof fn lemma_redraw_request_renders(state: RedrawState, animations_active: bool)
    ensures
        state.spec_after_request().requested,
        state.spec_after_request().spec_after_request().requested,
        state.spec_after_request().spec_renders(animations_active),
        state.spec_after_request().spec_after_request().spec_renders(animations_active),
        !state.spec_after_take().requested,
        state.spec_renders(animations_active) == (state.requested || animations_active),
{
}

/// A resize of any window, shown or not and whatever its scale factor, sets
/// the window's size and saves exactly that size into the attached state,
/// keeping the state's own scale factor; the window's scale, shown flag and
/// cursor stay as they were.
pub proof fn lemma_resize_saves_size_keeps_scale(window: HandlerState, width: u32, height: u32)
    ensures
        window.spec_resize(width, height).width == width,
        window.spec_resize(width, height).height == height,
        window.spec_resize(width, height).state == match window.state {
            Some(s) => Some(
                SlintEditorState { width, height, scale_factor_bits: s.scale_factor_bits },
            ),
            None => None::<SlintEditorState>,
        },
        window.spec_resize(width, height).scale_factor_bits == window.scale_factor_bits,
        window.spec_resize(width, height).window_shown == window.window_shown,
        window.spec_resize(width, height).cursor_x_bits == window.cursor_x_bits,
        window.spec_resize(width, height).cursor_y_bits == window.cursor_y_bits,
{
}

/// A size report sets only the scale factor of the window; the reported size
/// is queued unless nothing is pending and the window already has it.
pub proof fn lemma_window_info_queues_report(
    window: HandlerState,
    queue: Seq<(u32, u32)>,
    width: u32,
    height: u32,
    scale_factor_bits: u32,
)
    ensures
        window.spec_window_info(scale_factor_bits) == (HandlerState {
            scale_factor_bits,
            ..window
        }),
        queue.len() == 0 && width == window.width && height == window.height
            ==> window.spec_queue_after_report(queue, width, height) == queue,
        !(queue.len() == 0 && width == window.width && height == window.height)
            ==> window.spec_queue_after_report(queue, width, height).len() == queue.len() + 1
            && window.spec_queue_after_report(queue, width, height)[queue.len() as int] == (
            width,
            height,
        ) && window.spec_queue_after_report(queue, width, height).subrange(0, queue.len() as int)
            == queue,
{
    assert(queue.push((width, height)).subrange(0, queue.len() as int) =~= queue);
}

/// Draining hands out the last request of a non-empty queue and nothing for
/// an empty one.
pub proof fn lemma_drain_takes_last(queue: Seq<(u32, u32)>)
    ensures
        queue.len() == 0 ==> spec_latest_resize(queue) is None,
        queue.len() > 0 ==> spec_latest_resize(queue) == Some(queue[queue.len() - 1]),
{
}

} // verus!
