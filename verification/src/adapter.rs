//! What the window adapter answers when the engine calls back into it.
use vstd::prelude::*;
use crate::graphics::{
    gl_context, native_display, resolve_gl_context, resolve_native_display, GlApi, GlContext,
    NativeDisplay, RawHandle, ResolveError,
};

verus! {

/// The adapter's memory of the native graphics handles. Each is resolved the
/// first time the engine asks for it and stays as it is from then on.
#[derive(Debug)]
pub struct WindowAdapter {
    display: Option<NativeDisplay>,
    context: Option<GlContext>,
}

impl WindowAdapter {
    /// The native display, once resolved.
    pub closed spec fn resolved_display(self) -> Option<NativeDisplay> {
        self.display
    }

    /// The native GL context, once resolved.
    pub closed spec fn resolved_context(self) -> Option<GlContext> {
        self.context
    }

    /// An adapter that has resolved nothing yet.
    pub fn new() -> (adapter: WindowAdapter)
        ensures
            adapter.resolved_display() is None,
            adapter.resolved_context() is None,
    {
        WindowAdapter { display: None, context: None }
    }

    /// The native display, if it was resolved before.
    pub fn native_display(&self) -> (display: Option<NativeDisplay>)
        ensures
            display == self.resolved_display(),
    {
        self.display
    }

    /// The native GL context, if it was resolved before.
    pub fn gl_context(&self) -> (context: Option<GlContext>)
        ensures
            context == self.resolved_context(),
    {
        self.context
    }

    /// Whether a frame may be composited now. There is no readiness to wait
    /// for, whatever the size.
    pub fn prepare_for_composite(&self, width: usize, height: usize) -> (ready: bool)
        ensures
            ready,
    {
        true
    }

    /// The flavour of GL that the window's context was created for.
    pub fn get_gl_api(&self) -> (api: GlApi)
        ensures
            api == GlApi::OpenGL3,
    {
        GlApi::OpenGL3
    }

    /// The native display. The first call resolves it from the platform's
    /// answers; every later call returns that display, whatever is passed.
    pub fn get_native_display(
        &mut self,
        egl: Option<usize>,
        wayland: Option<usize>,
        x11: Option<usize>,
    ) -> (display: NativeDisplay)
        ensures
            display == match old(self).resolved_display() {
                Some(known) => known,
                None => native_display(egl, wayland, x11),
            },
            final(self).resolved_display() == Some(display),
            final(self).resolved_context() == old(self).resolved_context(),
    {
        match self.display {
            Some(known) => known,
            None => {
                let display = resolve_native_display(egl, wayland, x11);
                self.display = Some(display);
                display
            },
        }
    }

    /// The native GL context. The first successful call resolves it from the
    /// platform's raw handle; every later call returns that context, whatever
    /// is passed. A handle of an unsupported kind is an error and nothing is
    /// remembered.
    pub fn get_gl_context(&mut self, handle: RawHandle) -> (context: Result<
        GlContext,
        ResolveError,
    >)
        ensures
            context == match old(self).resolved_context() {
                Some(known) => Ok(known),
                None => gl_context(handle),
            },
            final(self).resolved_context() == match context {
                Ok(known) => Some(known),
                Err(_) => None,
            },
            final(self).resolved_display() == old(self).resolved_display(),
    {
        match self.context {
            Some(known) => Ok(known),
            None => match resolve_gl_context(handle) {
                Ok(context) => {
                    self.context = Some(context);
                    Ok(context)
                },
                Err(error) => Err(error),
            },
        }
    }
}

} // verus!
