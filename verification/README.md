# xlib_programming_rust

A minimal X11 / OpenGL window, with its decisions proved in Verus.

- `src/` is the verified library: video-mode selection (`video_mode`), the
  Motif hints that remove window decorations (`hints`), the fullscreen client
  message (`fullscreen`, built with x11-dl's `ClientMessageData`), the
  window's setup (`window`), the event-loop decisions (`events`) and the
  protocol values they use (`protocol`).
- `app/main.rs` opens the display, makes the Xlib / GLX / GL calls and runs
  the event loop, asking the library at each decision.
- `tests/` exercises the library on concrete values.
