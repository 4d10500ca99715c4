//! Window-system logic for a minimal X11 / OpenGL window: choosing the video
//! mode that best fits a requested size, the Motif hints that strip window
//! decorations, the client message that asks the window manager for a
//! fullscreen window, the window's setup and the decisions of the event loop.

pub mod events;
pub mod fullscreen;
pub mod hints;
pub mod protocol;
pub mod video_mode;
pub mod window;
