use scraen::blink::{ease_permille, BlinkController, BlinkPhase};

#[test]
fn starts_dormant_and_open() {
    let c = BlinkController::new(100, 200, 200, 1_000_000);
    assert_eq!(c.phase, BlinkPhase::Dormant);
    assert_eq!(c.val, 0);
}

#[test]
fn stays_dormant_when_draw_misses() {
    let mut c = BlinkController::new(100, 200, 200, 1_000_000);
    // dt = 1000 ms, so the trial is one in 1000; a draw of 7 misses.
    let v = c.update(1000, 7);
    assert_eq!(v, 0);
    assert_eq!(c.phase, BlinkPhase::Dormant);
}

#[test]
fn draw_zero_triggers_a_blink() {
    let mut c = BlinkController::new(100, 200, 200, 1_000_000);
    let v = c.update(1000, 0);
    assert_eq!(v, 0);
    assert_eq!(c.phase, BlinkPhase::Closing(1000));
}

#[test]
fn ease_midpoint_and_ends() {
    assert_eq!(ease_permille(0, 100), 0);
    assert_eq!(ease_permille(50, 100), 500);
    assert_eq!(ease_permille(100, 100), 1000);
}

#[test]
fn closing_values_nondecreasing() {
    let mut c = BlinkController::new(100, 200, 200, 1_000_000);
    c.update(1000, 0);
    assert_eq!(c.phase, BlinkPhase::Closing(1000));
    let mut prev: u16 = 0;
    for t in [1010u64, 1025, 1040, 1055, 1070, 1085, 1099] {
        let v = c.update(t, 1);
        assert!(v >= prev, "closure fell from {prev} to {v} at {t}");
        assert!(v <= 1000);
        prev = v;
    }
    // Past the closing duration the lid is fully shut.
    let v = c.update(1100, 1);
    assert_eq!(v, 1000);
    assert_eq!(c.phase, BlinkPhase::Closed(1100));
}

#[test]
fn full_blink_cycle() {
    let mut c = BlinkController::new(100, 200, 200, 1_000_000);
    c.update(1000, 0);
    assert_eq!(c.phase, BlinkPhase::Closing(1000));
    assert_eq!(c.update(1100, 1), 1000);
    assert_eq!(c.phase, BlinkPhase::Closed(1100));
    // Held shut for its whole closed time.
    assert_eq!(c.update(1250, 1), 1000);
    assert_eq!(c.phase, BlinkPhase::Closed(1100));
    assert_eq!(c.update(1300, 1), 1000);
    assert_eq!(c.phase, BlinkPhase::Opening(1300));
    // Reopening: values fall back to zero.
    let mut prev: u16 = 1000;
    for t in [1320u64, 1360, 1400, 1440, 1480, 1499] {
        let v = c.update(t, 1);
        assert!(v <= prev, "closure rose from {prev} to {v} at {t}");
        prev = v;
    }
    assert_eq!(c.update(1500, 1), 0);
    assert_eq!(c.phase, BlinkPhase::Dormant);
}
