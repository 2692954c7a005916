//! The persisted editor state: the window size that survives plugin instances.

use vstd::prelude::*;

verus! {

/// Width of a window whose state was never saved, in logical pixels.
pub const DEFAULT_WIDTH: u32 = 400;

/// Height of a window whose state was never saved, in logical pixels.
pub const DEFAULT_HEIGHT: u32 = 300;

/// IEEE-754 single-precision encoding of the scale factor `1.0` (100 %).
pub const UNIT_SCALE_BITS: u32 = 0x3F80_0000;

/// Width used when a saved state lacks one.
pub fn default_width() -> (w: u32)
    ensures
        w == DEFAULT_WIDTH,
        w == 400,
{
    DEFAULT_WIDTH
}

/// Height used when a saved state lacks one.
pub fn default_height() -> (h: u32)
    ensures
        h == DEFAULT_HEIGHT,
        h == 300,
{
    DEFAULT_HEIGHT
}

/// Scale factor used when a saved state lacks one, as its `f32` bit pattern.
pub fn default_scale_bits() -> (b: u32)
    ensures
        b == UNIT_SCALE_BITS,
        b == 0x3F80_0000u32,
{
    UNIT_SCALE_BITS
}

/// Persistent state of the editor window.
///
/// The scale factor is kept as the bit pattern of the `f32` it stands for
/// (`f32::to_bits`), so that the state can be carried and compared exactly.
#[derive(Clone, Copy, Debug, PartialEq, Eq, Structural)]
pub struct SlintEditorState {
    /// Window width in logical pixels (the unit the window is opened and resized in)
    pub width: u32,
    /// Window height in logical pixels
    pub height: u32,
    /// Bit pattern of the UI scale factor (`0x3F80_0000` is 1.0 = 100 %)
    pub scale_factor_bits: u32,
}

impl SlintEditorState {
    /// The state of a given size at scale 1.0.
    pub open spec fn spec_new(width: u32, height: u32) -> SlintEditorState {
        SlintEditorState { width, height, scale_factor_bits: UNIT_SCALE_BITS }
    }

    /// The same state with its size replaced, scale kept.
    pub open spec fn spec_with_size(self, width: u32, height: u32) -> SlintEditorState {
        SlintEditorState { width, height, ..self }
    }

    /// Create a new editor state with the given size and a scale factor of 1.0.
    pub fn new(width: u32, height: u32) -> (s: Self)
        ensures
            s == Self::spec_new(width, height),
            s.width == width,
            s.height == height,
            s.scale_factor_bits == 0x3F80_0000u32,
    {
        SlintEditorState { width, height, scale_factor_bits: UNIT_SCALE_BITS }
    }

    /// Create a new editor state with a custom scale factor, given by its `f32` bits.
    pub fn with_scale(width: u32, height: u32, scale_factor_bits: u32) -> (s: Self)
        ensures
            s.width == width,
            s.height == height,
            s.scale_factor_bits == scale_factor_bits,
    {
        SlintEditorState { width, height, scale_factor_bits }
    }

    /// The state that a resize to `width` x `height` leaves behind: the new size,
    /// with the scale factor untouched.
    pub fn with_size(&self, width: u32, height: u32) -> (s: Self)
        ensures
            s == self.spec_with_size(width, height),
            s.width == width,
            s.height == height,
            s.scale_factor_bits == self.scale_factor_bits,
    {
        SlintEditorState { width, height, scale_factor_bits: self.scale_factor_bits }
    }
}

impl Default for SlintEditorState {
    /// 400 x 300 at scale 1.0.
    fn default() -> (s: Self)
        ensures
            s == Self::spec_new(DEFAULT_WIDTH, DEFAULT_HEIGHT),
            s.width == 400,
            s.height == 300,
            s.scale_factor_bits == 0x3F80_0000u32,
    {
        SlintEditorState {
            width: default_width(),
            height: default_height(),
            scale_factor_bits: default_scale_bits(),
        }
    }
}

} // verus!
