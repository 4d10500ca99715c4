use vstd::prelude::*;
use crate::protocol::{EXPOSE, KEY_PRESS};

verus! {

/// What the event loop does in answer to an event.
#[derive(Clone, Copy, Debug, PartialEq, Eq)]
pub enum EventAction {
    /// Read the window size, set the viewport to it, clear and swap buffers.
    Redraw,
    /// Release the GL context, destroy the window, close the display and
    /// leave the loop.
    Shutdown,
    /// Do nothing and wait for the next event.
    Ignore,
}

/// The decision of the event loop for an event of type `event_type`: an
/// exposed window is redrawn, a key press ends the program, every other
/// event is ignored.
pub fn handle_event(event_type: i32) -> (a: EventAction)
    ensures
        event_type == EXPOSE ==> a == EventAction::Redraw,
        event_type == KEY_PRESS ==> a == EventAction::Shutdown,
        event_type != EXPOSE && event_type != KEY_PRESS ==> a == EventAction::Ignore,
{
    if event_type == EXPOSE {
        EventAction::Redraw
    } else if event_type == KEY_PRESS {
        EventAction::Shutdown
    } else {
        EventAction::Ignore
    }
}

} // verus!
