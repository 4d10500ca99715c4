use vstd::prelude::*;
use x11_dl::xlib::ClientMessageData;
use crate::protocol::{CLIENT_MESSAGE, SUBSTRUCTURE_NOTIFY_MASK, SUBSTRUCTURE_REDIRECT_MASK};

verus! {

/// x11-dl's `ClientMessageData`: the 20-byte payload of a client message,
/// stored as five C longs.
#[verifier::external_type_specification]
#[verifier::external_body]
pub struct ExClientMessageData(ClientMessageData);

/// The five longs that a `ClientMessageData` holds, in order.
pub uninterp spec fn client_message_longs(data: ClientMessageData) -> Seq<i64>;

/// Calls x11-dl's `ClientMessageData::new`, which builds the payload with all
/// five longs zero.
#[verifier::external_body]
fn new_client_message_data() -> (d: ClientMessageData)
    ensures
        client_message_longs(d) == seq![0i64, 0i64, 0i64, 0i64, 0i64],
{
    ClientMessageData::new()
}

/// Calls x11-dl's `ClientMessageData::set_long`, which writes `value` into
/// long number `index` and leaves the other four as they were. It indexes an
/// array of five longs, so an index past the fifth would panic.
#[verifier::external_body]
fn set_client_message_long(data: &mut ClientMessageData, index: usize, value: i64)
    requires
        index < 5,
    ensures
        client_message_longs(*final(data)).len() == 5,
        client_message_longs(*final(data)) == client_message_longs(*old(data)).update(
            index as int,
            value,
        ),
{
    data.set_long(index, value);
}

/// Name of the property through which the window manager is asked for a
/// window that spans the monitors.
pub const NET_WM_FULLSCREEN_MONITORS: &'static str = "_NET_WM_FULLSCREEN_MONITORS";

/// The window to which a client message is sent.
#[derive(Clone, Copy, Debug, PartialEq, Eq)]
pub enum MessageRecipient {
    /// The root window of the display's default screen.
    RootOfDefaultScreen,
}

/// The client message that asks the window manager for a fullscreen window,
/// where it is sent, and how: `send_event` marks the event as sent by a
/// client, `propagate` says whether it travels up the window tree, and
/// `event_mask` selects the clients that receive it.
pub struct FullscreenRequest {
    /// The ID of the property through which the request is made; the
    /// operation gives it back so that the property can be referred to later.
    pub property: u64,
    pub recipient: MessageRecipient,
    pub propagate: bool,
    pub event_mask: i64,
    pub event_type: i32,
    pub send_event: bool,
    pub window: u64,
    pub message_type: u64,
    pub format: i32,
    pub data: ClientMessageData,
}

/// The payload of the request: monitors 1, 1, 1, 1 and source indication 1.
pub open spec fn fullscreen_payload() -> Seq<i64> {
    seq![1i64, 1i64, 1i64, 1i64, 1i64]
}

/// Decides what toggling fullscreen does once the atom of
/// `_NET_WM_FULLSCREEN_MONITORS` has been looked up: atom 0 means that it
/// could not be had, and that is an error; otherwise a client message about
/// `window`, of that type, with 32-bit items all 1 and marked as sent by a
/// client, goes to the root window of the default screen, without
/// propagation, with the substructure redirect and notify masks; and the
/// atom, the ID of the property, is what the operation gives back.
pub fn toggle_fullscreen_windowed(atom: u64, window: u64) -> (r: Result<FullscreenRequest, String>)
    ensures
        r is Err <==> atom == 0,
        r matches Err(e) ==> e@ == "Could not set atom"@,
        r matches Ok(q) ==> {
            &&& q.property == atom
            &&& q.recipient == MessageRecipient::RootOfDefaultScreen
            &&& !q.propagate
            &&& q.event_mask == SUBSTRUCTURE_REDIRECT_MASK | SUBSTRUCTURE_NOTIFY_MASK
            &&& q.event_type == CLIENT_MESSAGE
            &&& q.send_event
            &&& q.window == window
            &&& q.message_type == atom
            &&& q.format == 32
            &&& client_message_longs(q.data) == fullscreen_payload()
        },
{
    if atom == 0 {
        return Err("Could not set atom".to_string());
    }
    let mut data = new_client_message_data();
    let mut i: usize = 0;
    while i < 5
        invariant
            i <= 5,
            client_message_longs(data).len() == 5,
            forall|j: int| 0 <= j < i ==> client_message_longs(data)[j] == 1,
        decreases 5 - i,
    {
        set_client_message_long(&mut data, i, 1);
        i = i + 1;
    }
    assert(client_message_longs(data) == fullscreen_payload());
    Ok(
        FullscreenRequest {
            property: atom,
            recipient: MessageRecipient::RootOfDefaultScreen,
            propagate: false,
            event_mask: SUBSTRUCTURE_REDIRECT_MASK | SUBSTRUCTURE_NOTIFY_MASK,
            event_type: CLIENT_MESSAGE,
            send_event: true,
            window,
            message_type: atom,
            format: 32,
            data,
        },
    )
}

} // verus!
