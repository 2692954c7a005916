//! Decisions of the rendering platform: which window adapter the user
//! interface gets, when the renderer may be created, and which OpenGL
//! function addresses are usable.

use vstd::prelude::*;
use vstd::string::StringExecFns;

verus! {

/// Why the platform could not hand out a window adapter.
#[derive(Clone, Copy, Debug, PartialEq, Eq, Structural)]
pub enum PlatformFault {
    /// No window has registered its adapter yet
    NoAdapterSet,
}

impl PlatformFault {
    /// The message reported for this fault.
    pub fn message(&self) -> (m: String)
        ensures
            m@ == "No adapter set"@,
    {
        match self {
            PlatformFault::NoAdapterSet => String::from_str("No adapter set"),
        }
    }
}

/// The adapter of the most recently opened window, which every user
/// interface created on this thread renders through.
pub fn current_adapter<A>(slot: Option<A>) -> (r: Result<A, PlatformFault>)
    ensures
        match slot {
            Some(a) => r == Ok::<A, PlatformFault>(a),
            None => r == Err::<A, PlatformFault>(PlatformFault::NoAdapterSet),
        },
{
    match slot {
        Some(a) => Ok(a),
        None => Err(PlatformFault::NoAdapterSet),
    }
}

/// How a request for the renderer is served.
#[derive(Clone, Copy, Debug, PartialEq, Eq, Structural)]
pub enum RendererAccess {
    /// Hand out the renderer already created
    UseExisting,
    /// Create the renderer now: the OpenGL context is current
    CreateNow,
}

/// Why the renderer cannot be handed out.
#[derive(Clone, Copy, Debug, PartialEq, Eq, Structural)]
pub enum RendererFault {
    /// The renderer was requested before any OpenGL context was made current
    ContextNotReady,
}

/// Serve a request for the renderer. An existing renderer is always handed
/// out; a missing one is created only once an OpenGL context is current.
pub fn renderer_access(context_ready: bool, renderer_exists: bool) -> (r: Result<
    RendererAccess,
    RendererFault,
>)
    ensures
        renderer_exists ==> r == Ok::<RendererAccess, RendererFault>(RendererAccess::UseExisting),
        !renderer_exists && context_ready ==> r == Ok::<RendererAccess, RendererFault>(
            RendererAccess::CreateNow,
        ),
        !renderer_exists && !context_ready ==> r == Err::<RendererAccess, RendererFault>(
            RendererFault::ContextNotReady,
        ),
{
    if renderer_exists {
        Ok(RendererAccess::UseExisting)
    } else if context_ready {
        Ok(RendererAccess::CreateNow)
    } else {
        Err(RendererFault::ContextNotReady)
    }
}

/// Whether an address returned by `wglGetProcAddress` is a function: that
/// call signals failure with null and also with 1, 2, 3 or all bits set.
pub fn is_valid_wgl_proc_address(address: usize) -> (valid: bool)
    ensures
        valid == !(address == 0 || address == 1 || address == 2 || address == 3 || address
            == usize::MAX),
{
    address != 0 && address != 1 && address != 2 && address != 3 && address != usize::MAX
}

/// The address the Windows loader hands out for an OpenGL function: the
/// core function exported by `opengl32.dll` when it has one (`core_address`
/// non-null), otherwise the `wglGetProcAddress` result when that is valid,
/// otherwise null.
pub fn resolve_windows_proc_address(core_address: usize, extension_address: usize) -> (address: usize)
    ensures
        core_address != 0 ==> address == core_address,
        core_address == 0 && (extension_address == 0 || extension_address == 1
            || extension_address == 2 || extension_address == 3 || extension_address
            == usize::MAX) ==> address == 0,
        core_address == 0 && !(extension_address == 0 || extension_address == 1
            || extension_address == 2 || extension_address == 3 || extension_address
            == usize::MAX) ==> address == extension_address,
{
    if core_address != 0 {
        core_address
    } else if is_valid_wgl_proc_address(extension_address) {
        extension_address
    } else {
        0
    }
}

} // verus!
