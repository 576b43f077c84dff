use vstd::prelude::*;

use crate::indicator::LockIndicator;
use crate::notifier::{next_ticket_of, Transition};
use crate::state::{glyph_of, icon_of, state_of, Glyph, State};

verus! {

/// The state after polling with each snapshot of `samples` in turn.
pub open spec fn run(ind: LockIndicator, samples: Seq<State>) -> LockIndicator
    decreases samples.len(),
{
    if samples.len() == 0 {
        ind
    } else {
        run(ind, samples.drop_last()).step(samples.last()).0
    }
}

/// How many entries of `samples` differ from the snapshot before them,
/// the first being compared with `start`.
pub open spec fn changes(start: State, samples: Seq<State>) -> nat
    decreases samples.len(),
{
    if samples.len() == 0 {
        0
    } else {
        let prev = if samples.len() == 1 {
            start
        } else {
            samples[samples.len() - 2]
        };
        changes(start, samples.drop_last()) + if prev != samples.last() {
            1nat
        } else {
            0nat
        }
    }
}

/// The icon table: each of the four snapshots has its own icon, numbered
/// 0 (both off), 1 (caps on), 2 (num on) and 3 (both on).
pub proof fn icon_table()
    ensures
        icon_of(State { caps: false, num: false }) == 0,
        icon_of(State { caps: true, num: false }) == 1,
        icon_of(State { caps: false, num: true }) == 2,
        icon_of(State { caps: true, num: true }) == 3,
        forall|a: State, b: State| icon_of(a) == icon_of(b) ==> a == b,
{
}

/// Polling with given key words records the toggle bits of those words, and
/// polling again with the same words neither changes the state nor asks anything
/// of the display.
pub proof fn resample_is_idle(ind: LockIndicator, caps_key: i16, num_key: i16)
    ensures
        ({
            let s = state_of(caps_key, num_key);
            let after = ind.step(s).0;
            &&& after.last_state == (State {
                caps: caps_key & 1i16 != 0i16,
                num: num_key & 1i16 != 0i16,
            })
            &&& after.step(s) == (after, None::<Transition>)
        }),
{
}

/// The snapshot after a run of polls is the last one polled.
pub proof fn run_last_state(ind: LockIndicator, samples: Seq<State>)
    ensures
        run(ind, samples).last_state == if samples.len() == 0 {
            ind.last_state
        } else {
            samples.last()
        },
    decreases samples.len(),
{
    if samples.len() > 0 {
        run_last_state(ind, samples.drop_last());
    }
}

/// Each change advances the ticket by one, modulo 256; polls without a change
/// leave it alone.
pub proof fn ticket_counts_changes(ind: LockIndicator, samples: Seq<State>)
    ensures
        run(ind, samples).latest_transmit as int == (ind.latest_transmit as int + changes(
            ind.last_state,
            samples,
        )) % 256,
    decreases samples.len(),
{
    if samples.len() > 0 {
        let init = samples.drop_last();
        ticket_counts_changes(ind, init);
        run_last_state(ind, init);
        if samples.len() >= 2 {
            assert(init.last() == samples[samples.len() - 2]);
        }
        let c = changes(ind.last_state, init) as int;
        let t = ind.latest_transmit as int;
        assert(((t + c) % 256 + 1) % 256 == (t + c + 1) % 256) by {
            vstd::arithmetic::div_mod::lemma_add_mod_noop(t + c, 1, 256);
        }
    }
}

/// The ticket wraps: from ticket 0, 255 changes lead to ticket 255 and the
/// 256th change to ticket 0.
pub proof fn ticket_wraps(ind: LockIndicator, samples: Seq<State>)
    requires
        ind.latest_transmit == 0,
    ensures
        changes(ind.last_state, samples) == 255 ==> run(ind, samples).latest_transmit == 255,
        changes(ind.last_state, samples) == 256 ==> run(ind, samples).latest_transmit == 0,
        next_ticket_of(255) == 0,
{
    ticket_counts_changes(ind, samples);
}

/// A hide scheduled by a change is ignored once a later change has come,
/// while the hide of the later change takes the splash away.
pub proof fn stale_hide_is_ignored(ind: LockIndicator, a: State, b: State)
    requires
        a != ind.last_state,
        b != a,
    ensures
        ({
            let first = ind.step(a).0;
            let second = first.step(b).0;
            &&& ind.step(a).1.unwrap().hide_ticket == first.latest_transmit
            &&& first.step(b).1.unwrap().hide_ticket == second.latest_transmit
            &&& first.latest_transmit != second.latest_transmit
            &&& second.hide_step(first.latest_transmit) == second
            &&& second.hide_step(second.latest_transmit).splash_visible == false
        }),
{
}

/// When Caps Lock turns on, the splash shows the caps-on glyph, whatever
/// Num Lock did in the same poll.
pub proof fn caps_on_comes_first(ind: LockIndicator, sampled: State)
    requires
        !ind.last_state.caps,
        sampled.caps,
        ind.enable_osd,
    ensures
        glyph_of(ind.last_state, sampled) == Some(Glyph::CapsOn),
        ind.step(sampled).1.unwrap().glyph == Some(Glyph::CapsOn),
{
}

} // verus!
