//! The tray icon bitmap: a uniformly coloured, translucent 16x16 square,
//! green while reminders are active and red while they are paused.

use vstd::prelude::*;

verus! {

/// Width of the tray icon bitmap, in pixels.
pub const ICON_WIDTH: u32 = 16;

/// Height of the tray icon bitmap, in pixels.
pub const ICON_HEIGHT: u32 = 16;

/// Length in bytes of the RGBA buffer: four channels per pixel.
pub const ICON_BYTES: usize = 1024;

/// The byte each pixel carries in channel `c` (0 red, 1 green, 2 blue,
/// 3 alpha): translucent red when paused, translucent green when active.
pub open spec fn channel_byte(paused: bool, c: int) -> u8 {
    if c == 0 {
        if paused { 255 } else { 0 }
    } else if c == 1 {
        if paused { 0 } else { 255 }
    } else if c == 2 {
        0
    } else {
        100
    }
}

/// The byte at offset `i` of the icon's RGBA buffer.
pub open spec fn icon_byte(paused: bool, i: int) -> u8 {
    channel_byte(paused, i % 4)
}

/// Renders the icon for the given pause state as a raw RGBA buffer,
/// one fixed colour for every pixel.
pub fn get_icon_image(paused: bool) -> (rgba: Vec<u8>)
    ensures
        rgba@.len() == ICON_BYTES,
        forall|i: int| 0 <= i < rgba@.len() ==> #[trigger] rgba@[i] == icon_byte(paused, i),
{
    let red: u8 = if paused { 255 } else { 0 };
    let green: u8 = if paused { 0 } else { 255 };
    let mut rgba: Vec<u8> = Vec::new();
    let mut p: usize = 0;
    while p < ICON_BYTES / 4
        invariant
            p <= ICON_BYTES / 4,
            rgba@.len() == 4 * p,
            red == channel_byte(paused, 0),
            green == channel_byte(paused, 1),
            forall|i: int| 0 <= i < rgba@.len() ==> #[trigger] rgba@[i] == icon_byte(paused, i),
        decreases ICON_BYTES / 4 - p,
    {
        rgba.push(red);
        rgba.push(green);
        rgba.push(0);
        rgba.push(100);
        proof {
            assert forall|i: int| 0 <= i < rgba@.len() implies rgba@[i] == icon_byte(
                paused,
                i,
            ) by {
                if i >= 4 * p {
                    assert(i % 4 == i - 4 * p);
                }
            }
        }
        p = p + 1;
    }
    rgba
}

} // verus!
