use vstd::prelude::*;

verus! {

// Values of the X11 and OpenGL protocols that the window logic works with.
/// Event type of an `Expose` event.
pub const EXPOSE: i32 = 12;

/// Event type of a `KeyPress` event.
pub const KEY_PRESS: i32 = 2;

/// Event type of a client message.
pub const CLIENT_MESSAGE: i32 = 33;

/// Event mask bit selecting `KeyPress` events.
pub const KEY_PRESS_MASK: i64 = 0x0000_0001;

/// Event mask bit selecting `Expose` events.
pub const EXPOSURE_MASK: i64 = 0x0000_8000;

/// Event mask bit selecting notification of changes to a window's children.
pub const SUBSTRUCTURE_NOTIFY_MASK: i64 = 0x0008_0000;

/// Event mask bit redirecting structure requests on a window's children.
pub const SUBSTRUCTURE_REDIRECT_MASK: i64 = 0x0010_0000;

/// Attribute value-mask bit: the event mask is given.
pub const CW_EVENT_MASK: u64 = 0x0800;

/// Attribute value-mask bit: the colormap is given.
pub const CW_COLORMAP: u64 = 0x2000;

/// Window class of a window that can be drawn into and receives input.
pub const INPUT_OUTPUT: u32 = 1;

/// Property change mode that replaces the old value.
pub const PROP_MODE_REPLACE: i32 = 0;

/// GLX visual attribute: an RGBA visual.
pub const GLX_RGBA: i32 = 0x0004;

/// GLX visual attribute: a double-buffered visual.
pub const GLX_DOUBLEBUFFER: i32 = 0x0005;

/// GLX visual attribute: the depth buffer size follows.
pub const GLX_DEPTH_SIZE: i32 = 0x000c;

/// Terminator of a GLX attribute list.
pub const GLX_NONE: i32 = 0x8000;

pub const GL_TRUE: i32 = 1;

pub const GL_FALSE: i32 = 0;

/// OpenGL capability: depth testing.
pub const GL_DEPTH_TEST: u32 = 0x0B71;

/// OpenGL buffer bit: the color buffer.
pub const GL_COLOR_BUFFER_BIT: u32 = 0x0000_4000;

} // verus!
