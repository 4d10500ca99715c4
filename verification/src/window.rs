use vstd::prelude::*;
use crate::protocol::{
    CW_COLORMAP, CW_EVENT_MASK, EXPOSURE_MASK, GLX_DEPTH_SIZE, GLX_DOUBLEBUFFER, GLX_NONE, GLX_RGBA,
    INPUT_OUTPUT, KEY_PRESS_MASK,
};

verus! {

/// How the program's window is set up: the GLX visual it asks for, the
/// window's geometry, class, attributes and title.
pub struct WindowConfig {
    /// Attribute list for choosing the visual, ended by `GLX_NONE`.
    pub visual_attributes: Vec<i32>,
    pub x: i32,
    pub y: i32,
    pub width: u32,
    pub height: u32,
    pub border_width: u32,
    pub class: u32,
    /// Events the window selects.
    pub event_mask: i64,
    /// Which window attributes are given: the colormap and the event mask.
    pub value_mask: u64,
    pub title: String,
}

/// The window of the program: an RGBA, double-buffered visual with a 24-bit
/// depth buffer; a 600 x 600 input-output window at the origin without a
/// border, listening for exposure and key presses, titled "illustrate!".
pub fn main_window_config() -> (c: WindowConfig)
    ensures
        c.visual_attributes@ == seq![GLX_RGBA, GLX_DEPTH_SIZE, 24i32, GLX_DOUBLEBUFFER, GLX_NONE],
        c.x == 0 && c.y == 0,
        c.width == 600 && c.height == 600,
        c.border_width == 0,
        c.class == INPUT_OUTPUT,
        c.event_mask == EXPOSURE_MASK | KEY_PRESS_MASK,
        c.value_mask == CW_COLORMAP | CW_EVENT_MASK,
        c.title@ == "illustrate!"@,
{
    WindowConfig {
        visual_attributes: vec![GLX_RGBA, GLX_DEPTH_SIZE, 24, GLX_DOUBLEBUFFER, GLX_NONE],
        x: 0,
        y: 0,
        width: 600,
        height: 600,
        border_width: 0,
        class: INPUT_OUTPUT,
        event_mask: EXPOSURE_MASK | KEY_PRESS_MASK,
        value_mask: CW_COLORMAP | CW_EVENT_MASK,
        title: "illustrate!".to_string(),
    }
}

} // verus!
