use vstd::prelude::*;

verus! {

// Motif window decorations.
pub const MWM_DECOR_ALL: u64 = 1;

pub const MWM_DECOR_BORDER: u64 = 1 << 1;

pub const MWM_DECOR_RESIZEH: u64 = 1 << 2;

pub const MWM_DECOR_TITLE: u64 = 1 << 3;

pub const MWM_DECOR_MENU: u64 = 1 << 4;

pub const MWM_DECOR_MINIMIZE: u64 = 1 << 5;

pub const MWM_DECOR_MAXIMIZE: u64 = 1 << 6;

/// Flag of the Motif hints saying that the `decorations` field is set.
pub const MWM_HINTS_DECORATIONS: u64 = 2;

/// Name of the window property that holds the Motif hints.
pub const MOTIF_WM_HINTS: &'static str = "_MOTIF_WM_HINTS";

/// Number of 32-bit items in the Motif hints property.
pub const MOTIF_HINTS_ITEMS: i32 = 5;

/// Window hints (needed for changing fullscreen and windowed mode), laid out
/// as the `_MOTIF_WM_HINTS` property.
#[derive(Clone, Copy, Debug, PartialEq, Eq)]
pub struct Hints {
    pub flags: u64,
    pub functions: u64,
    pub decorations: u64,
    pub input_mode: i64,
    pub status: u64,
}

impl Hints {
    /// Hints that change the window decorations, and to none at all.
    pub fn borderless() -> (h: Hints)
        ensures
            h.flags == MWM_HINTS_DECORATIONS,
            h.decorations == 0,
            h.functions == 0,
            h.input_mode == 0,
            h.status == 0,
    {
        Hints { flags: MWM_HINTS_DECORATIONS, functions: 0, decorations: 0, input_mode: 0, status: 0 }
    }

    /// The hints as the items of the property, in field order.
    pub fn property_data(&self) -> (d: [u64; 5])
        ensures
            d@ == seq![self.flags, self.functions, self.decorations, self.input_mode as u64, self.status],
    {
        [self.flags, self.functions, self.decorations, self.input_mode as u64, self.status]
    }
}

/// The change of the `_MOTIF_WM_HINTS` property that removes the window's
/// decorations: property and type are the interned atom, items are 32-bit
/// and replace the old value.
#[derive(Clone, Copy, Debug, PartialEq, Eq)]
pub struct BorderChange {
    pub property: u64,
    pub property_type: u64,
    pub format: i32,
    pub mode: i32,
    pub hints: Hints,
    pub items: i32,
}

/// Decides what removing the window's borders does once the atom of
/// `_MOTIF_WM_HINTS` has been looked up: atom 0 means that it could not be
/// had, and that is an error; otherwise the property is replaced by hints
/// without decorations, and the atom is what the operation returns.
pub fn toggle_borders(atom: u64) -> (r: Result<BorderChange, String>)
    ensures
        r is Err <==> atom == 0,
        r matches Err(e) ==> e@ == "Could not set XInternAtom"@,
        r matches Ok(c) ==> c.property == atom && c.property_type == atom && c.format == 32
            && c.mode == crate::protocol::PROP_MODE_REPLACE && c.items == MOTIF_HINTS_ITEMS
            && c.hints == Hints::borderless_spec(),
{
    let hints = Hints::borderless();
    if atom == 0 {
        return Err("Could not set XInternAtom".to_string());
    }
    Ok(
        BorderChange {
            property: atom,
            property_type: atom,
            format: 32,
            mode: crate::protocol::PROP_MODE_REPLACE,
            hints,
            items: MOTIF_HINTS_ITEMS,
        },
    )
}

impl Hints {
    /// The hints that `borderless` builds.
    pub open spec fn borderless_spec() -> Hints {
        Hints { flags: MWM_HINTS_DECORATIONS, functions: 0, decorations: 0, input_mode: 0, status: 0 }
    }
}

} // verus!
