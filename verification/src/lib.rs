//! Window-size persistence, resize coalescing, event routing and frame
//! lifecycle decisions for a Slint user interface hosted in a plugin window.
//!
//! The windowing, rendering and host plumbing around it performs the side
//! effects and the floating-point arithmetic; the decisions on sizes, the
//! saved state, the resize queue, events, frames and the renderer come from
//! the verified functions of this crate.

pub mod editor_state;

pub use editor_state::{default_height, default_width, SlintEditorState};
pub mod resize_queue;
pub mod editor;
pub mod handler;
pub mod events;
pub mod platform;
pub mod redraw;
pub mod laws;
