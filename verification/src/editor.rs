//! The editor's own size bookkeeping and the window it asks the host for.

use vstd::prelude::*;
use vstd::string::StringExecFns;
use crate::editor_state::SlintEditorState;

verus! {

/// Size and persistence settings of an editor, before any window is open.
#[derive(Clone, Copy, Debug, PartialEq, Eq, Structural)]
pub struct EditorGeometry {
    /// Current window width in logical pixels
    pub width: u32,
    /// Current window height in logical pixels
    pub height: u32,
    /// Persistent state the size is loaded from and saved to, if attached
    pub state: Option<SlintEditorState>,
}

/// OpenGL context that the window requests for the renderer.
#[derive(Clone, Copy, Debug, PartialEq, Eq, Structural)]
pub struct GlSettings {
    pub version_major: u8,
    pub version_minor: u8,
    pub red_bits: u8,
    pub green_bits: u8,
    pub blue_bits: u8,
    pub alpha_bits: u8,
    pub depth_bits: u8,
    pub stencil_bits: u8,
    pub samples: Option<u8>,
    pub srgb: bool,
    pub double_buffer: bool,
    pub vsync: bool,
}

/// What the editor asks the host for when it opens its window.
pub struct WindowSettings {
    /// Logical width of the window
    pub width: u32,
    /// Logical height of the window
    pub height: u32,
    /// Whether the system's scale factor applies to the window
    pub system_scale_factor: bool,
    /// Window title
    pub title: String,
    /// Requested OpenGL context
    pub gl: GlSettings,
}

/// An OpenGL 3.2 context with 8-bit RGBA, 24-bit depth, 8-bit stencil, no
/// multisampling, an sRGB double-buffered surface and no vsync.
pub open spec fn spec_gl_settings() -> GlSettings {
    GlSettings {
        version_major: 3,
        version_minor: 2,
        red_bits: 8,
        green_bits: 8,
        blue_bits: 8,
        alpha_bits: 8,
        depth_bits: 24,
        stencil_bits: 8,
        samples: None,
        srgb: true,
        double_buffer: true,
        vsync: false,
    }
}

/// The OpenGL context the renderer needs.
pub fn gl_settings() -> (gl: GlSettings)
    ensures
        gl == spec_gl_settings(),
        gl.version_major == 3 && gl.version_minor == 2,
        gl.red_bits == 8 && gl.green_bits == 8 && gl.blue_bits == 8 && gl.alpha_bits == 8,
        gl.depth_bits == 24 && gl.stencil_bits == 8,
        gl.samples is None,
        gl.srgb && gl.double_buffer && !gl.vsync,
{
    GlSettings {
        version_major: 3,
        version_minor: 2,
        red_bits: 8,
        green_bits: 8,
        blue_bits: 8,
        alpha_bits: 8,
        depth_bits: 24,
        stencil_bits: 8,
        samples: None,
        srgb: true,
        double_buffer: true,
        vsync: false,
    }
}

impl EditorGeometry {
    /// An editor of the given default size with no persistent state.
    pub open spec fn spec_new(size: (u32, u32)) -> EditorGeometry {
        EditorGeometry { width: size.0, height: size.1, state: None }
    }

    /// The editor with `state` attached: its size is the saved one.
    pub open spec fn spec_with_state(self, state: SlintEditorState) -> EditorGeometry {
        EditorGeometry { width: state.width, height: state.height, state: Some(state) }
    }

    /// An editor of the given default size `(width, height)` with no
    /// persistent state.
    pub fn new(size: (u32, u32)) -> (g: Self)
        ensures
            g == Self::spec_new(size),
            g.width == size.0,
            g.height == size.1,
            g.state is None,
    {
        EditorGeometry { width: size.0, height: size.1, state: None }
    }

    /// Attach a persistent state: the saved size replaces the current one, and
    /// later resizes are saved into the state.
    pub fn with_state(self, state: SlintEditorState) -> (g: Self)
        ensures
            g == self.spec_with_state(state),
            g.width == state.width,
            g.height == state.height,
            g.state == Some(state),
    {
        EditorGeometry { width: state.width, height: state.height, state: Some(state) }
    }

    /// The editor's current size `(width, height)`.
    pub fn size(&self) -> (s: (u32, u32))
        ensures
            s == (self.width, self.height),
    {
        (self.width, self.height)
    }

    /// The window to open for this editor: its current size, scaled by the
    /// system, titled "Plug-in", with the OpenGL context of [`gl_settings`].
    pub fn window_settings(&self) -> (w: WindowSettings)
        ensures
            w.width == self.width,
            w.height == self.height,
            w.system_scale_factor,
            w.title@ == "Plug-in"@,
            w.gl == spec_gl_settings(),
            w.gl.version_major == 3 && w.gl.version_minor == 2,
            w.gl.red_bits == 8 && w.gl.green_bits == 8 && w.gl.blue_bits == 8 && w.gl.alpha_bits
                == 8,
            w.gl.depth_bits == 24 && w.gl.stencil_bits == 8,
            w.gl.samples is None,
            w.gl.srgb && w.gl.double_buffer && !w.gl.vsync,
    {
        WindowSettings {
            width: self.width,
            height: self.height,
            system_scale_factor: true,
            title: String::from_str("Plug-in"),
            gl: gl_settings(),
        }
    }
}

} // verus!
