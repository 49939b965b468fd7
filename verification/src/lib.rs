//! The logic of a window adapter that embeds a browser engine in a native
//! window: how platform events become engine events, in what order the
//! adapter starts up, and how native graphics handles are resolved.
//!
//! Nothing here touches a window, a graphics context or an engine. The shell
//! around this library performs those calls and hands plain values in and out.
pub mod adapter;
pub mod binary;
pub mod event;
pub mod graphics;
pub mod session;
