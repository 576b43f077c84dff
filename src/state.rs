use vstd::prelude::*;

verus! {

/// A snapshot of the two lock keys: Caps Lock and Num Lock, each toggled on or off.
#[derive(Clone, Copy, Debug, PartialEq, Eq, Structural)]
pub struct State {
    pub caps: bool,
    pub num: bool,
}

/// The glyph that the splash shows for the key that just flipped.
#[derive(Clone, Copy, Debug, PartialEq, Eq, Structural)]
pub enum Glyph {
    CapsOn,
    CapsOff,
    NumOn,
    NumOff,
}

/// A lock key is on when the toggle bit of its raw key-state word, the lowest
/// bit, is set. The top bit only says whether the key is held down.
pub open spec fn is_toggled(raw: i16) -> bool {
    raw & 1i16 != 0i16
}

/// The snapshot read from the raw key-state words of Caps Lock and Num Lock.
pub open spec fn state_of(caps_key: i16, num_key: i16) -> State {
    State { caps: is_toggled(caps_key), num: is_toggled(num_key) }
}

/// The tray icon of a snapshot, by the 2x2 table
/// (off, off) -> 0, (caps, off) -> 1, (off, num) -> 2, (caps, num) -> 3.
pub open spec fn icon_of(s: State) -> u8 {
    if !s.caps && !s.num {
        0
    } else if s.caps && !s.num {
        1
    } else if !s.caps && s.num {
        2
    } else {
        3
    }
}

/// The glyph for a change from `last` to `current`: the first of
/// caps on, caps off, num on, num off that happened; none when nothing changed.
pub open spec fn glyph_of(last: State, current: State) -> Option<Glyph> {
    if !last.caps && current.caps {
        Some(Glyph::CapsOn)
    } else if last.caps && !current.caps {
        Some(Glyph::CapsOff)
    } else if !last.num && current.num {
        Some(Glyph::NumOn)
    } else if last.num && !current.num {
        Some(Glyph::NumOff)
    } else {
        None
    }
}

impl State {
    /// True exactly when both snapshots agree on both keys.
    pub fn equals(&self, comparison: &State) -> (r: bool)
        ensures
            r == (*self == *comparison),
    {
        self.caps == comparison.caps && self.num == comparison.num
    }

    /// Builds a snapshot from the raw key-state words of the two keys.
    /// It reads nothing else, so the same words always give the same snapshot.
    pub fn sample(caps_key: i16, num_key: i16) -> (r: State)
        ensures
            r == state_of(caps_key, num_key),
    {
        State { caps: caps_key & 1i16 != 0i16, num: num_key & 1i16 != 0i16 }
    }

    /// The tray icon identifier of this snapshot.
    pub fn icon_id(&self) -> (r: u8)
        ensures
            r == icon_of(*self),
            r < 4,
    {
        match (self.caps, self.num) {
            (false, false) => 0,
            (true, false) => 1,
            (false, true) => 2,
            (true, true) => 3,
        }
    }
}

impl Default for State {
    /// Both keys off.
    fn default() -> (r: State)
        ensures
            r == (State { caps: false, num: false }),
    {
        State { caps: false, num: false }
    }
}

/// Chooses the splash glyph for a change from `last` to `current`.
/// Caps Lock is looked at before Num Lock, so a change of both shows the caps glyph.
pub fn splash_glyph(last: &State, current: &State) -> (r: Option<Glyph>)
    ensures
        r == glyph_of(*last, *current),
        r.is_some() <==> *last != *current,
{
    if !last.caps && current.caps {
        Some(Glyph::CapsOn)
    } else if last.caps && !current.caps {
        Some(Glyph::CapsOff)
    } else if !last.num && current.num {
        Some(Glyph::NumOn)
    } else if last.num && !current.num {
        Some(Glyph::NumOff)
    } else {
        None
    }
}

} // verus!
