use lock_indicator::indicator::LockIndicator;
use lock_indicator::notifier::{
    calculate_splash_position, next_ticket, on_tick, Transition, SPLASH_DURATION_IN_MS,
    SPLASH_SIZE,
};
use lock_indicator::state::{splash_glyph, Glyph, State};

fn st(caps: bool, num: bool) -> State {
    State { caps, num }
}

#[test]
fn icon_table_has_four_entries() {
    assert_eq!(st(false, false).icon_id(), 0);
    assert_eq!(st(true, false).icon_id(), 1);
    assert_eq!(st(false, true).icon_id(), 2);
    assert_eq!(st(true, true).icon_id(), 3);
}

#[test]
fn sample_reads_toggle_bit() {
    assert_eq!(State::sample(1, 1), st(true, true));
    assert_eq!(State::sample(0, 1), st(false, true));
    assert_eq!(State::sample(1, 0), st(true, false));
    // toggle bit set while the key is held down
    assert_eq!(State::sample(-32767, 0), st(true, false));
    assert_eq!(State::sample(-127, -127), st(true, true));
    // held down with the toggle bit clear
    assert_eq!(State::sample(-32768, -128), st(false, false));
    assert_eq!(State::sample(3, 2), st(true, false));
}

#[test]
fn equals_compares_both_keys() {
    assert!(st(true, false).equals(&st(true, false)));
    assert!(!st(true, false).equals(&st(true, true)));
    assert!(!st(false, true).equals(&st(true, true)));
    assert_eq!(State::default(), st(false, false));
}

#[test]
fn resampling_without_key_change_is_idle() {
    let mut ind = LockIndicator::new();
    let first = State::sample(1, 0);
    assert!(ind.update(first).is_some());
    let after = ind;
    for _ in 0..10 {
        let again = State::sample(1, 0);
        assert_eq!(again, first);
        assert_eq!(ind.update(again), None);
        assert_eq!(ind, after);
    }
}

#[test]
fn ticket_wraps_after_255() {
    assert_eq!(next_ticket(0), 1);
    assert_eq!(next_ticket(254), 255);
    assert_eq!(next_ticket(255), 0);
    let mut ind = LockIndicator::new();
    for i in 1..=255u32 {
        let t = ind.update(st(i % 2 == 1, false)).unwrap();
        assert_eq!(t.hide_ticket as u32, i);
    }
    let t = ind.update(st(false, true)).unwrap();
    assert_eq!(t.hide_ticket, 0);
    assert_eq!(ind.latest_transmit, 0);
}

#[test]
fn stale_hide_is_suppressed() {
    let mut ind = LockIndicator {
        last_state: st(false, false),
        latest_transmit: 4,
        enable_osd: true,
        splash_visible: false,
    };
    let a = ind.update(st(true, false)).unwrap();
    assert_eq!(a.hide_ticket, 5);
    let b = ind.update(st(true, true)).unwrap();
    assert_eq!(b.hide_ticket, 6);
    assert!(ind.splash_visible);
    // A's timer fires first and is ignored
    assert!(!ind.receive_hide(5));
    assert!(ind.splash_visible);
    // B's timer hides the splash
    assert!(ind.receive_hide(6));
    assert!(!ind.splash_visible);
}

#[test]
fn simultaneous_flip_shows_caps() {
    assert_eq!(splash_glyph(&st(false, false), &st(true, true)), Some(Glyph::CapsOn));
    assert_eq!(splash_glyph(&st(true, false), &st(false, true)), Some(Glyph::CapsOff));
    assert_eq!(splash_glyph(&st(false, false), &st(false, true)), Some(Glyph::NumOn));
    assert_eq!(splash_glyph(&st(true, true), &st(true, false)), Some(Glyph::NumOff));
    assert_eq!(splash_glyph(&st(true, true), &st(true, true)), None);
    let mut ind = LockIndicator::new();
    let t = ind.update(st(true, true)).unwrap();
    assert_eq!(t.glyph, Some(Glyph::CapsOn));
    assert_eq!(t.icon_id, 3);
}

#[test]
fn caps_press_scenario() {
    let mut ind = LockIndicator::new();
    assert_eq!(ind.last_state, st(false, false));
    assert_eq!(ind.icon_id(), 0);
    assert!(!ind.splash_visible);
    let t = ind.update(st(true, false)).unwrap();
    assert_eq!(
        t,
        Transition { icon_id: 1, glyph: Some(Glyph::CapsOn), hide_ticket: 1 }
    );
    assert_eq!(ind.icon_id(), 1);
    assert!(ind.splash_visible);
    assert_eq!(ind.latest_transmit, 1);
    let size = SPLASH_SIZE as u32;
    assert_eq!(calculate_splash_position(1920, 1080, size, size), (1832, 952));
    assert_eq!(SPLASH_DURATION_IN_MS, 1500);
    // no further change until the delay has passed
    assert_eq!(ind.update(st(true, false)), None);
    assert!(ind.receive_hide(t.hide_ticket));
    assert!(!ind.splash_visible);
}

#[test]
fn osd_disabled_changes_icon_only() {
    let mut ind = LockIndicator::default();
    assert!(ind.enable_osd);
    ind.toggle_osd();
    assert!(!ind.enable_osd);
    let t = ind.update(st(false, true)).unwrap();
    assert_eq!(t, Transition { icon_id: 2, glyph: None, hide_ticket: 1 });
    assert!(!ind.splash_visible);
    ind.toggle_osd();
    assert!(ind.enable_osd);
}

#[test]
fn click_hides_splash() {
    let mut ind = LockIndicator::new();
    ind.update(st(false, true));
    assert!(ind.splash_visible);
    ind.hide_splash();
    assert!(!ind.splash_visible);
    assert_eq!(ind.latest_transmit, 1);
}

#[test]
fn on_tick_keeps_ticket_without_change() {
    let mut ticket: u8 = 9;
    assert_eq!(on_tick(&st(true, true), &st(true, true), &mut ticket, true), None);
    assert_eq!(ticket, 9);
    let r = on_tick(&st(true, true), &st(false, true), &mut ticket, true);
    assert_eq!(r, Some(Transition { icon_id: 2, glyph: Some(Glyph::CapsOff), hide_ticket: 10 }));
    assert_eq!(ticket, 10);
}

#[test]
fn splash_position_uses_margins_and_size() {
    assert_eq!(calculate_splash_position(0, 0, 0, 0), (-24, -64));
    assert_eq!(calculate_splash_position(2560, 1440, 100, 50), (2436, 1326));
    assert_eq!(calculate_splash_position(-100, -200, 10, 20), (-134, -284));
}
