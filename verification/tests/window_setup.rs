use x11_dl::{glx, xlib};
use xlib_programming_rust::events::{handle_event, EventAction};
use xlib_programming_rust::fullscreen::{
    toggle_fullscreen_windowed, MessageRecipient, NET_WM_FULLSCREEN_MONITORS,
};
use xlib_programming_rust::hints::{
    toggle_borders, Hints, MOTIF_WM_HINTS, MWM_DECOR_ALL, MWM_DECOR_BORDER, MWM_DECOR_MAXIMIZE,
    MWM_DECOR_MENU, MWM_DECOR_MINIMIZE, MWM_DECOR_RESIZEH, MWM_DECOR_TITLE,
};
use xlib_programming_rust::protocol;
use xlib_programming_rust::window::main_window_config;

#[test]
fn protocol_values_match_the_bindings() {
    assert_eq!(protocol::EXPOSE, xlib::Expose);
    assert_eq!(protocol::KEY_PRESS, xlib::KeyPress);
    assert_eq!(protocol::CLIENT_MESSAGE, xlib::ClientMessage);
    assert_eq!(protocol::KEY_PRESS_MASK, xlib::KeyPressMask);
    assert_eq!(protocol::EXPOSURE_MASK, xlib::ExposureMask);
    assert_eq!(protocol::SUBSTRUCTURE_NOTIFY_MASK, xlib::SubstructureNotifyMask);
    assert_eq!(protocol::SUBSTRUCTURE_REDIRECT_MASK, xlib::SubstructureRedirectMask);
    assert_eq!(protocol::CW_EVENT_MASK, xlib::CWEventMask);
    assert_eq!(protocol::CW_COLORMAP, xlib::CWColormap);
    assert_eq!(protocol::INPUT_OUTPUT as i32, xlib::InputOutput);
    assert_eq!(protocol::PROP_MODE_REPLACE, xlib::PropModeReplace);
    assert_eq!(protocol::GLX_RGBA, glx::GLX_RGBA);
    assert_eq!(protocol::GLX_DOUBLEBUFFER, glx::GLX_DOUBLEBUFFER);
    assert_eq!(protocol::GLX_DEPTH_SIZE, glx::GLX_DEPTH_SIZE);
    assert_eq!(protocol::GLX_NONE, glx::GLX_NONE);
}

#[test]
fn event_loop_decisions() {
    assert_eq!(handle_event(xlib::Expose), EventAction::Redraw);
    assert_eq!(handle_event(xlib::KeyPress), EventAction::Shutdown);
    assert_eq!(handle_event(xlib::ButtonPress), EventAction::Ignore);
    assert_eq!(handle_event(xlib::ClientMessage), EventAction::Ignore);
}

#[test]
fn decoration_flags_are_distinct_bits() {
    let flags = [
        MWM_DECOR_ALL,
        MWM_DECOR_BORDER,
        MWM_DECOR_RESIZEH,
        MWM_DECOR_TITLE,
        MWM_DECOR_MENU,
        MWM_DECOR_MINIMIZE,
        MWM_DECOR_MAXIMIZE,
    ];
    for (i, f) in flags.iter().enumerate() {
        assert_eq!(*f, 1u64 << i);
    }
}

#[test]
fn borderless_hints() {
    let h = Hints::borderless();
    assert_eq!(h.flags, 2);
    assert_eq!(h.decorations, 0);
    assert_eq!(h.property_data(), [2, 0, 0, 0, 0]);
    let h = Hints { flags: 1, functions: 2, decorations: 3, input_mode: -1, status: 5 };
    assert_eq!(h.property_data(), [1, 2, 3, u64::MAX, 5]);
}

#[test]
fn toggle_borders_refuses_a_missing_atom() {
    assert_eq!(toggle_borders(0), Err("Could not set XInternAtom".to_string()));
    assert_eq!(MOTIF_WM_HINTS, "_MOTIF_WM_HINTS");
}

#[test]
fn toggle_borders_replaces_the_hints_property() {
    let c = toggle_borders(311).unwrap();
    assert_eq!(c.property, 311);
    assert_eq!(c.property_type, 311);
    assert_eq!(c.format, 32);
    assert_eq!(c.mode, xlib::PropModeReplace);
    assert_eq!(c.items, 5);
    assert_eq!(c.hints, Hints::borderless());
}

#[test]
fn fullscreen_refuses_a_missing_atom() {
    match toggle_fullscreen_windowed(0, 0x0400_0001) {
        Err(e) => assert_eq!(e, "Could not set atom"),
        Ok(_) => panic!("atom 0 must be refused"),
    }
    assert_eq!(NET_WM_FULLSCREEN_MONITORS, "_NET_WM_FULLSCREEN_MONITORS");
}

#[test]
fn fullscreen_message_payload() {
    let q = match toggle_fullscreen_windowed(42, 0x0400_0001) {
        Ok(q) => q,
        Err(e) => panic!("unexpected error {}", e),
    };
    assert_eq!(q.property, 42);
    assert_eq!(q.recipient, MessageRecipient::RootOfDefaultScreen);
    assert!(!q.propagate);
    assert!(q.send_event);
    assert_eq!(q.window, 0x0400_0001);
    assert_eq!(q.event_type, xlib::ClientMessage);
    assert_eq!(q.message_type, 42);
    assert_eq!(q.format, 32);
    for i in 0..5 {
        assert_eq!(q.data.get_long(i), 1);
    }
    assert_eq!(q.event_mask, xlib::SubstructureRedirectMask | xlib::SubstructureNotifyMask);
}

#[test]
fn main_window_setup() {
    let c = main_window_config();
    assert_eq!(
        c.visual_attributes,
        vec![glx::GLX_RGBA, glx::GLX_DEPTH_SIZE, 24, glx::GLX_DOUBLEBUFFER, glx::GLX_NONE]
    );
    assert_eq!((c.x, c.y, c.width, c.height, c.border_width), (0, 0, 600, 600, 0));
    assert_eq!(c.class as i32, xlib::InputOutput);
    assert_eq!(c.event_mask, xlib::ExposureMask | xlib::KeyPressMask);
    assert_eq!(c.value_mask, xlib::CWColormap | xlib::CWEventMask);
    assert_eq!(c.title, "illustrate!");
}
