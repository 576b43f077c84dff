use vstd::prelude::*;

use crate::state::{glyph_of, icon_of, splash_glyph, Glyph, State};

verus! {

/// Side length of the square splash window, in pixels.
pub const SPLASH_SIZE: i32 = 64;

/// How long the splash stays up after a change, in milliseconds.
pub const SPLASH_DURATION_IN_MS: u64 = 1500;

/// Pause between two polls of the keys when nothing else is pending, in milliseconds.
pub const WAIT_DURATION_IN_MS: u64 = 25;

/// Gap between the splash and the right edge of the display, in pixels.
pub const SPLASH_RIGHT_MARGIN: i32 = 24;

/// Gap between the splash and the bottom edge of the display, in pixels.
pub const SPLASH_BOTTOM_MARGIN: i32 = 64;

/// The ticket that follows `t`: one more, wrapping from 255 to 0.
pub open spec fn next_ticket_of(t: u8) -> u8 {
    if t == 255 {
        0
    } else {
        (t + 1) as u8
    }
}

/// What a detected change asks of the display.
#[derive(Clone, Copy, Debug, PartialEq, Eq, Structural)]
pub struct Transition {
    /// The tray icon to show now.
    pub icon_id: u8,
    /// The splash glyph to show, when the splash is enabled.
    pub glyph: Option<Glyph>,
    /// The ticket that the delayed hide of this change carries.
    pub hide_ticket: u8,
}

/// The outcome of one poll: nothing when the snapshot did not change; otherwise
/// the icon of the new snapshot, the glyph of the change when the splash is enabled,
/// and the ticket after `ticket`.
pub open spec fn transition_of(last: State, current: State, ticket: u8, osd_enabled: bool) -> Option<
    Transition,
> {
    if last == current {
        None
    } else {
        Some(
            Transition {
                icon_id: icon_of(current),
                glyph: if osd_enabled {
                    glyph_of(last, current)
                } else {
                    None
                },
                hide_ticket: next_ticket_of(ticket),
            },
        )
    }
}

/// Where the splash's top-left corner goes on a display whose right and bottom
/// edges are at `right` and `bottom`, for a splash of the given size.
pub open spec fn splash_position_of(right: int, bottom: int, width: int, height: int) -> (int, int) {
    (right - SPLASH_RIGHT_MARGIN - width, bottom - SPLASH_BOTTOM_MARGIN - height)
}

/// The ticket after `t`, wrapping from 255 to 0.
pub fn next_ticket(t: u8) -> (r: u8)
    ensures
        r == next_ticket_of(t),
        r as int == (t as int + 1) % 256,
{
    if t == 255 {
        0
    } else {
        t + 1
    }
}

/// Compares a fresh snapshot with the last one. On a change it advances `ticket`
/// and returns what the display must do; otherwise it leaves `ticket` alone.
pub fn on_tick(last: &State, current: &State, ticket: &mut u8, osd_enabled: bool) -> (r: Option<
    Transition,
>)
    ensures
        r == transition_of(*last, *current, *old(ticket), osd_enabled),
        *final(ticket) == if *last == *current {
            *old(ticket)
        } else {
            next_ticket_of(*old(ticket))
        },
{
    if last.equals(current) {
        None
    } else {
        let glyph = if osd_enabled {
            splash_glyph(last, current)
        } else {
            None
        };
        *ticket = next_ticket(*ticket);
        Some(Transition { icon_id: current.icon_id(), glyph, hide_ticket: *ticket })
    }
}

/// Places the splash at a fixed gap from the bottom-right corner of the display.
/// The sizes must fit in an `i32` and the position must not fall below `i32::MIN`.
pub fn calculate_splash_position(right: i32, bottom: i32, width: u32, height: u32) -> (r: (
    i32,
    i32,
))
    requires
        width <= i32::MAX,
        height <= i32::MAX,
        i32::MIN <= right - SPLASH_RIGHT_MARGIN - width,
        i32::MIN <= bottom - SPLASH_BOTTOM_MARGIN - height,
    ensures
        (r.0 as int, r.1 as int) == splash_position_of(
            right as int,
            bottom as int,
            width as int,
            height as int,
        ),
{
    let width = width as i32;
    let height = height as i32;
    let x = right - SPLASH_RIGHT_MARGIN - width;
    let y = bottom - SPLASH_BOTTOM_MARGIN - height;
    (x, y)
}

} // verus!
