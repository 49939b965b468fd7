//! Resolution of the native graphics handles that the engine's media
//! subsystem needs in order to share the compositor's GL context.
//!
//! The shell reads the raw handles from the platform and passes them here as
//! plain addresses; which of them counts is decided here.
use vstd::prelude::*;

verus! {

/// The display that the window lives on, by the address of its native handle.
#[derive(Clone, Copy, Debug, PartialEq, Eq)]
pub enum NativeDisplay {
    Egl(usize),
    Wayland(usize),
    X11(usize),
    Unknown,
}

/// The native GL context, by the address of its handle.
#[derive(Clone, Copy, Debug, PartialEq, Eq)]
pub enum GlContext {
    Egl(usize),
    Glx(usize),
}

/// The flavour of GL that the context speaks.
#[derive(Clone, Copy, Debug, PartialEq, Eq)]
pub enum GlApi {
    OpenGL,
    OpenGL3,
    Gles1,
    Gles2,
}

/// The raw context handle as the platform reports it.
#[derive(Clone, Copy, Debug, PartialEq, Eq)]
pub enum RawHandle {
    Egl(usize),
    Glx(usize),
    /// A handle of a kind that the media subsystem cannot share.
    Unsupported,
}

/// Why no GL context could be resolved.
#[derive(Clone, Copy, Debug, PartialEq, Eq)]
pub enum ResolveError {
    /// The platform's raw handle is neither an EGL nor a GLX context.
    UnsupportedHandle,
}

/// A display server that the platform can be asked about.
#[derive(Clone, Copy, Debug, PartialEq, Eq)]
pub enum DisplayServer {
    Egl,
    Wayland,
    X11,
}

/// Where the search for the native display stands.
#[derive(Clone, Copy, Debug, PartialEq, Eq)]
pub enum Probe {
    /// Ask the platform for this server's display next.
    Ask(DisplayServer),
    /// The search is over.
    Found(NativeDisplay),
}

/// The native display, given what the platform answers for each server:
/// EGL counts before Wayland, Wayland before X11.
pub open spec fn native_display(
    egl: Option<usize>,
    wayland: Option<usize>,
    x11: Option<usize>,
) -> NativeDisplay {
    match (egl, wayland, x11) {
        (Some(display), _, _) => NativeDisplay::Egl(display),
        (None, Some(display), _) => NativeDisplay::Wayland(display),
        (None, None, Some(display)) => NativeDisplay::X11(display),
        (None, None, None) => NativeDisplay::Unknown,
    }
}

/// The native GL context for a raw handle: the same kind and address, and no
/// context at all for a handle of another kind.
pub open spec fn gl_context(handle: RawHandle) -> Result<GlContext, ResolveError> {
    match handle {
        RawHandle::Egl(context) => Ok(GlContext::Egl(context)),
        RawHandle::Glx(context) => Ok(GlContext::Glx(context)),
        RawHandle::Unsupported => Err(ResolveError::UnsupportedHandle),
    }
}

/// Where the search stands once `asked` was answered with `found`.
pub open spec fn probe_after(asked: DisplayServer, found: Option<usize>) -> Probe {
    match (asked, found) {
        (DisplayServer::Egl, Some(display)) => Probe::Found(NativeDisplay::Egl(display)),
        (DisplayServer::Egl, None) => Probe::Ask(DisplayServer::Wayland),
        (DisplayServer::Wayland, Some(display)) => Probe::Found(NativeDisplay::Wayland(display)),
        (DisplayServer::Wayland, None) => Probe::Ask(DisplayServer::X11),
        (DisplayServer::X11, Some(display)) => Probe::Found(NativeDisplay::X11(display)),
        (DisplayServer::X11, None) => Probe::Found(NativeDisplay::Unknown),
    }
}

/// Picks the native display from the platform's three answers.
pub fn resolve_native_display(
    egl: Option<usize>,
    wayland: Option<usize>,
    x11: Option<usize>,
) -> (display: NativeDisplay)
    ensures
        display == native_display(egl, wayland, x11),
{
    if let Some(display) = egl {
        NativeDisplay::Egl(display)
    } else if let Some(display) = wayland {
        NativeDisplay::Wayland(display)
    } else if let Some(display) = x11 {
        NativeDisplay::X11(display)
    } else {
        NativeDisplay::Unknown
    }
}

/// Maps the platform's raw context handle to the native GL context. There is
/// no fallback: a handle of another kind is an error.
pub fn resolve_gl_context(handle: RawHandle) -> (context: Result<GlContext, ResolveError>)
    ensures
        context == gl_context(handle),
        context is Err <==> handle is Unsupported,
{
    match handle {
        RawHandle::Egl(context) => Ok(GlContext::Egl(context)),
        RawHandle::Glx(context) => Ok(GlContext::Glx(context)),
        RawHandle::Unsupported => Err(ResolveError::UnsupportedHandle),
    }
}

/// The server to ask first.
pub fn first_probe() -> (server: DisplayServer)
    ensures
        server == DisplayServer::Egl,
{
    DisplayServer::Egl
}

/// Continues the search after the platform answered for `asked`.
pub fn after_probe(asked: DisplayServer, found: Option<usize>) -> (probe: Probe)
    ensures
        probe == probe_after(asked, found),
{
    match asked {
        DisplayServer::Egl => match found {
            Some(display) => Probe::Found(NativeDisplay::Egl(display)),
            None => Probe::Ask(DisplayServer::Wayland),
        },
        DisplayServer::Wayland => match found {
            Some(display) => Probe::Found(NativeDisplay::Wayland(display)),
            None => Probe::Ask(DisplayServer::X11),
        },
        DisplayServer::X11 => match found {
            Some(display) => Probe::Found(NativeDisplay::X11(display)),
            None => Probe::Found(NativeDisplay::Unknown),
        },
    }
}

/// Asking one server after the other, starting with EGL and going on only
/// while the answer is "none", ends with the display that
/// [`native_display`] names: a later server is asked only where every
/// earlier one is absent.
pub proof fn law_probing_finds_native_display(
    egl: Option<usize>,
    wayland: Option<usize>,
    x11: Option<usize>,
)
    ensures
        match probe_after(DisplayServer::Egl, egl) {
            Probe::Found(display) => egl is Some && display == native_display(egl, wayland, x11),
            Probe::Ask(second) => egl is None && second == DisplayServer::Wayland && match probe_after(
                second,
                wayland,
            ) {
                Probe::Found(display) => wayland is Some && display == native_display(
                    egl,
                    wayland,
                    x11,
                ),
                Probe::Ask(third) => wayland is None && third == DisplayServer::X11
                    && probe_after(third, x11) == Probe::Found(native_display(egl, wayland, x11)),
            },
        },
{
}

} // verus!
