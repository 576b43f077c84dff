use vstd::prelude::*;

use crate::notifier::{next_ticket_of, on_tick, transition_of, Transition};
use crate::state::{icon_of, State};

verus! {

/// The state that the polling loop owns: the last snapshot, the ticket of the
/// latest change, whether the splash is enabled, and whether it is on screen.
/// Every combination of field values is a valid state. The tray icon shown is
/// always `icon_of(last_state)`.
#[derive(Clone, Copy, Debug, PartialEq, Eq, Structural)]
pub struct LockIndicator {
    pub last_state: State,
    pub latest_transmit: u8,
    pub enable_osd: bool,
    pub splash_visible: bool,
}

impl LockIndicator {
    /// One poll with a fresh snapshot: the state after it, and what the display must do.
    pub open spec fn step(self, sampled: State) -> (LockIndicator, Option<Transition>) {
        if self.last_state == sampled {
            (self, None)
        } else {
            (
                LockIndicator {
                    last_state: sampled,
                    latest_transmit: next_ticket_of(self.latest_transmit),
                    enable_osd: self.enable_osd,
                    splash_visible: self.splash_visible || self.enable_osd,
                },
                transition_of(self.last_state, sampled, self.latest_transmit, self.enable_osd),
            )
        }
    }

    /// The state after a delayed hide carrying ticket `id` arrives: the splash
    /// goes away only when `id` is the ticket of the latest change.
    pub open spec fn hide_step(self, id: u8) -> LockIndicator {
        if id == self.latest_transmit {
            LockIndicator { splash_visible: false, ..self }
        } else {
            self
        }
    }

    /// The state at start-up: both keys off, ticket 0, splash enabled and hidden.
    pub open spec fn initial() -> LockIndicator {
        LockIndicator {
            last_state: State { caps: false, num: false },
            latest_transmit: 0,
            enable_osd: true,
            splash_visible: false,
        }
    }

    /// The state at start-up.
    pub fn new() -> (r: LockIndicator)
        ensures
            r == LockIndicator::initial(),
    {
        LockIndicator {
            last_state: State { caps: false, num: false },
            latest_transmit: 0,
            enable_osd: true,
            splash_visible: false,
        }
    }

    /// Handles one poll. On a change it records the new snapshot, advances the
    /// ticket, shows the splash when enabled, and returns what the display must do.
    pub fn update(&mut self, sampled: State) -> (r: Option<Transition>)
        ensures
            (*final(self), r) == old(self).step(sampled),
    {
        let last = self.last_state;
        let mut ticket = self.latest_transmit;
        let r = on_tick(&last, &sampled, &mut ticket, self.enable_osd);
        if r.is_some() {
            self.last_state = sampled;
            self.latest_transmit = ticket;
            if self.enable_osd {
                self.splash_visible = true;
            }
        }
        r
    }

    /// Handles a delayed hide carrying ticket `id`. Returns whether the splash
    /// must be hidden now, which is when no newer change came since it was scheduled.
    pub fn receive_hide(&mut self, id: u8) -> (r: bool)
        ensures
            r == (id == old(self).latest_transmit),
            *final(self) == old(self).hide_step(id),
    {
        if id == self.latest_transmit {
            self.hide_splash();
            true
        } else {
            false
        }
    }

    /// Takes the splash off the screen, as a click on it does.
    pub fn hide_splash(&mut self)
        ensures
            *final(self) == (LockIndicator { splash_visible: false, ..*old(self) }),
    {
        self.splash_visible = false;
    }

    /// Turns the splash on or off for later changes.
    pub fn toggle_osd(&mut self)
        ensures
            *final(self) == (LockIndicator { enable_osd: !old(self).enable_osd, ..*old(self) }),
    {
        self.enable_osd = !self.enable_osd;
    }

    /// The tray icon that goes with the last snapshot.
    pub fn icon_id(&self) -> (r: u8)
        ensures
            r == icon_of(self.last_state),
    {
        self.last_state.icon_id()
    }
}

impl Default for LockIndicator {
    /// The state at start-up.
    fn default() -> (r: LockIndicator)
        ensures
            r == LockIndicator::initial(),
    {
        LockIndicator::new()
    }
}

} // verus!
