//! The plain-value state of an open editor window and the decisions taken on it.

use vstd::prelude::*;
use crate::editor::EditorGeometry;
use crate::editor_state::{SlintEditorState, UNIT_SCALE_BITS};
use crate::events::{
    route_event, spec_cursor_after, spec_event_action, spec_event_status, EventAction, EventRoute,
    EventStatus, InputEvent,
};
use crate::resize_queue::{queue_resize, spec_latest_resize, take_latest_resize};

verus! {

/// State of an open editor window that its handler keeps between events.
#[derive(Clone, Copy, Debug, PartialEq, Eq, Structural)]
pub struct HandlerState {
    /// Current window width in logical pixels
    pub width: u32,
    /// Current window height in logical pixels
    pub height: u32,
    /// Bit pattern of the current `f32` scale factor
    pub scale_factor_bits: u32,
    /// Persistent state that resizes are saved into, if attached
    pub state: Option<SlintEditorState>,
    /// Whether the user interface has been shown (it is, on the first frame)
    pub window_shown: bool,
    /// `f32` bits of the last cursor position's logical x coordinate
    pub cursor_x_bits: u32,
    /// `f32` bits of the last cursor position's logical y coordinate
    pub cursor_y_bits: u32,
}

/// What a frame has to do before the user's event-loop handler runs.
#[derive(Clone, Copy, Debug, PartialEq, Eq, Structural)]
pub struct FramePlan {
    /// Create the renderer now (the context is current)
    pub create_renderer: bool,
    /// Show the user interface now
    pub show_window: bool,
}

/// The persistent state after a resize: the new size is saved when a state
/// is attached.
pub open spec fn spec_persist(state: Option<SlintEditorState>, width: u32, height: u32) -> Option<
    SlintEditorState,
> {
    match state {
        Some(s) => Some(s.spec_with_size(width, height)),
        None => None,
    }
}

impl HandlerState {
    /// The state of a window just opened for an editor: the editor's size,
    /// scale 1.0 until the host reports the real one, not shown yet, the
    /// cursor at the origin (0.0 has all bits clear).
    pub open spec fn spec_open(geometry: EditorGeometry) -> HandlerState {
        HandlerState {
            width: geometry.width,
            height: geometry.height,
            scale_factor_bits: UNIT_SCALE_BITS,
            state: geometry.state,
            window_shown: false,
            cursor_x_bits: 0,
            cursor_y_bits: 0,
        }
    }

    /// The state after a resize to logical `width` x `height`.
    pub open spec fn spec_resize(self, width: u32, height: u32) -> HandlerState {
        HandlerState { width, height, state: spec_persist(self.state, width, height), ..self }
    }

    /// The state after the host reported a new scale factor. The reported size
    /// is not taken over here: it goes through the resize queue.
    pub open spec fn spec_window_info(self, scale_factor_bits: u32) -> HandlerState {
        HandlerState { scale_factor_bits, ..self }
    }

    /// The resize queue after the host reported a logical size: the size is
    /// queued, except when nothing is pending and the window already has that
    /// size (the host echoing the window's own resize).
    pub open spec fn spec_queue_after_report(
        self,
        queue: Seq<(u32, u32)>,
        logical_width: u32,
        logical_height: u32,
    ) -> Seq<(u32, u32)> {
        if queue.len() == 0 && logical_width == self.width && logical_height == self.height {
            queue
        } else {
            queue.push((logical_width, logical_height))
        }
    }

    /// The state after an event: a cursor move records the position, every
    /// other event leaves the state as it is.
    pub open spec fn spec_after_event(self, event: InputEvent) -> HandlerState {
        let cursor = spec_cursor_after((self.cursor_x_bits, self.cursor_y_bits), event);
        HandlerState { cursor_x_bits: cursor.0, cursor_y_bits: cursor.1, ..self }
    }

    /// What a frame started in this state has to do.
    pub open spec fn spec_frame_plan(self, renderer_exists: bool) -> FramePlan {
        FramePlan {
            create_renderer: !self.window_shown && !renderer_exists,
            show_window: !self.window_shown,
        }
    }

    /// The state once the user interface has been shown.
    pub open spec fn spec_after_frame(self) -> HandlerState {
        HandlerState { window_shown: true, ..self }
    }

    /// The editor's view of the window: the size it reports and the state it
    /// holds.
    pub open spec fn spec_geometry(self) -> EditorGeometry {
        EditorGeometry { width: self.width, height: self.height, state: self.state }
    }

    /// The state of a window just opened for the editor `geometry`.
    pub fn open(geometry: &EditorGeometry) -> (h: Self)
        ensures
            h == Self::spec_open(*geometry),
            h.width == geometry.width,
            h.height == geometry.height,
            h.scale_factor_bits == 0x3F80_0000u32,
            h.state == geometry.state,
            !h.window_shown,
            h.cursor_x_bits == 0,
            h.cursor_y_bits == 0,
    {
        HandlerState {
            width: geometry.width,
            height: geometry.height,
            scale_factor_bits: UNIT_SCALE_BITS,
            state: geometry.state,
            window_shown: false,
            cursor_x_bits: 0,
            cursor_y_bits: 0,
        }
    }

    /// Record a resize to logical `width` x `height`, saving the size into the
    /// persistent state when one is attached.
    pub fn resize(&mut self, width: u32, height: u32)
        ensures
            *final(self) == old(self).spec_resize(width, height),
            final(self).width == width,
            final(self).height == height,
            final(self).state == match old(self).state {
                Some(s) => Some(
                    SlintEditorState { width, height, scale_factor_bits: s.scale_factor_bits },
                ),
                None => None::<SlintEditorState>,
            },
            final(self).scale_factor_bits == old(self).scale_factor_bits,
            final(self).window_shown == old(self).window_shown,
            final(self).cursor_x_bits == old(self).cursor_x_bits,
            final(self).cursor_y_bits == old(self).cursor_y_bits,
    {
        self.width = width;
        self.height = height;
        self.state = match self.state {
            Some(s) => Some(s.with_size(width, height)),
            None => None,
        };
    }

    /// Take over a size and scale change reported by the host, as when the
    /// user drags the window's corner. The scale factor applies at once; the
    /// logical size is queued like any resize request, so that the next
    /// drain applies it and saves it into the persistent state. A report of
    /// the window's current size while nothing is pending is not queued: it
    /// is the host echoing the resize the window itself performed, and
    /// queueing it would resize the window on every frame.
    pub fn handle_window_info(
        &mut self,
        queue: &mut Vec<(u32, u32)>,
        logical_width: u32,
        logical_height: u32,
        scale_factor_bits: u32,
    )
        ensures
            *final(self) == old(self).spec_window_info(scale_factor_bits),
            final(queue)@ == old(self).spec_queue_after_report(
                old(queue)@,
                logical_width,
                logical_height,
            ),
            final(self).scale_factor_bits == scale_factor_bits,
            final(self).width == old(self).width,
            final(self).height == old(self).height,
            final(self).state == old(self).state,
            final(self).window_shown == old(self).window_shown,
            final(self).cursor_x_bits == old(self).cursor_x_bits,
            final(self).cursor_y_bits == old(self).cursor_y_bits,
            old(queue)@.len() == 0 && logical_width == old(self).width && logical_height == old(
                self,
            ).height ==> final(queue)@ == old(queue)@,
            !(old(queue)@.len() == 0 && logical_width == old(self).width && logical_height
                == old(self).height) ==> final(queue)@ == old(queue)@.push(
                (logical_width, logical_height),
            ),
    {
        let echo = queue.len() == 0 && logical_width == self.width && logical_height
            == self.height;
        if !echo {
            queue_resize(queue, logical_width, logical_height);
        }
        self.scale_factor_bits = scale_factor_bits;
    }

    /// Decide what to do with an event and remember the cursor position it
    /// moves to: button presses and releases land at the last position the
    /// cursor moved to.
    pub fn on_event(&mut self, event: InputEvent) -> (route: EventRoute)
        ensures
            route.action == spec_event_action(
                (old(self).cursor_x_bits, old(self).cursor_y_bits),
                event,
            ),
            route.status == spec_event_status(route.action),
            *final(self) == old(self).spec_after_event(event),
            route.status == EventStatus::Ignored <==> route.action == EventAction::Ignore,
            (match event {
                InputEvent::CursorMoved { x_bits, y_bits } => final(self).cursor_x_bits == x_bits
                    && final(self).cursor_y_bits == y_bits,
                _ => *final(self) == *old(self),
            }),
            final(self).width == old(self).width && final(self).height == old(self).height,
            final(self).state == old(self).state,
    {
        let route = route_event((self.cursor_x_bits, self.cursor_y_bits), event);
        match event {
            InputEvent::CursorMoved { x_bits, y_bits } => {
                self.cursor_x_bits = x_bits;
                self.cursor_y_bits = y_bits;
            },
            _ => {},
        }
        route
    }

    /// Drain the resize queue and apply its most recent request, if any.
    /// Returns the size applied.
    pub fn process_pending_resizes(&mut self, queue: &mut Vec<(u32, u32)>) -> (applied: Option<
        (u32, u32),
    >)
        ensures
            applied == spec_latest_resize(old(queue)@),
            old(queue)@.len() == 0 ==> applied is None && *final(self) == *old(self),
            old(queue)@.len() > 0 ==> applied == Some(old(queue)@[old(queue)@.len() - 1])
                && final(self).width == old(queue)@[old(queue)@.len() - 1].0 && final(self).height
                == old(queue)@[old(queue)@.len() - 1].1,
            final(queue)@.len() == 0,
            final(queue)@ == Seq::<(u32, u32)>::empty(),
            *final(self) == match applied {
                Some(size) => old(self).spec_resize(size.0, size.1),
                None => *old(self),
            },
    {
        let latest = take_latest_resize(queue);
        match latest {
            Some((width, height)) => {
                self.resize(width, height);
                Some((width, height))
            },
            None => None,
        }
    }

    /// What a frame has to do first: on the first frame the renderer is
    /// created (unless it already exists) and the user interface shown; later
    /// frames do neither.
    pub fn frame_plan(&self, renderer_exists: bool) -> (plan: FramePlan)
        ensures
            plan == self.spec_frame_plan(renderer_exists),
            plan.show_window == !self.window_shown,
            plan.create_renderer == (!self.window_shown && !renderer_exists),
    {
        FramePlan {
            create_renderer: !self.window_shown && !renderer_exists,
            show_window: !self.window_shown,
        }
    }

    /// Record that the user interface has been shown.
    pub fn mark_shown(&mut self)
        ensures
            *final(self) == old(self).spec_after_frame(),
            final(self).window_shown,
            final(self).width == old(self).width && final(self).height == old(self).height,
            final(self).state == old(self).state,
            final(self).scale_factor_bits == old(self).scale_factor_bits,
            final(self).cursor_x_bits == old(self).cursor_x_bits,
            final(self).cursor_y_bits == old(self).cursor_y_bits,
    {
        self.window_shown = true;
    }

    /// The editor's view of the window: its current size and persistent state.
    pub fn geometry(&self) -> (g: EditorGeometry)
        ensures
            g == self.spec_geometry(),
            g.width == self.width,
            g.height == self.height,
            g.state == self.state,
    {
        EditorGeometry { width: self.width, height: self.height, state: self.state }
    }
}

} // verus!
