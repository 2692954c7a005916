//! When a frame renders: only after something changed.

use vstd::prelude::*;

verus! {

/// Whether the user interface asked for a redraw since the last rendered
/// frame.
#[derive(Clone, Copy, Debug, PartialEq, Eq, Structural)]
pub struct RedrawState {
    pub requested: bool,
}

impl RedrawState {
    /// Whether a frame renders, given whether an animation runs.
    pub open spec fn spec_renders(self, animations_active: bool) -> bool {
        self.requested || animations_active
    }

    /// The state once a frame has taken the request.
    pub open spec fn spec_after_take(self) -> RedrawState {
        RedrawState { requested: false }
    }

    /// The state once a redraw was requested.
    pub open spec fn spec_after_request(self) -> RedrawState {
        RedrawState { requested: true }
    }

    /// A window that has not rendered yet: its first frame draws it.
    pub fn new() -> (r: Self)
        ensures
            r.requested,
            r.spec_renders(false),
    {
        RedrawState { requested: true }
    }

    /// Record that the user interface changed and must be drawn again.
    pub fn request_redraw(&mut self)
        ensures
            *final(self) == old(self).spec_after_request(),
            final(self).requested,
            final(self).spec_renders(false),
    {
        self.requested = true;
    }

    /// Decide whether this frame renders: when a redraw was requested since
    /// the last frame or an animation runs. The request is consumed.
    pub fn take_frame(&mut self, animations_active: bool) -> (render: bool)
        ensures
            render == old(self).spec_renders(animations_active),
            *final(self) == old(self).spec_after_take(),
            render == (old(self).requested || animations_active),
            !final(self).requested,
    {
        let render = self.requested || animations_active;
        self.requested = false;
        render
    }
}

/// Of two consecutive frames with no redraw request and no animation in
/// between, the second does not render; a request in between makes it
/// render; the first frame of a window renders.
pub proof fn lemma_renders_only_on_change(state: RedrawState, animations_active: bool)
    ensures
        !state.spec_after_take().spec_renders(false),
        state.spec_after_take().spec_after_request().spec_renders(animations_active),
        state.spec_after_take().spec_renders(animations_active) == animations_active,
{
}

} // verus!
