use ilda_player::phase::current_phase_ticks;
use ilda_player::phase::phase_ticks;

#[test]
fn phase_ticks_mid_period() {
    // second 5 of a 2-second period: reduced second 1, shifted back one
    // whole second, plus half a second
    assert_eq!(phase_ticks(5, 500_000_000, 2), 500_000_000);
    assert_eq!(phase_ticks(3, 250_000_000, 2), 250_000_000);
}

#[test]
fn phase_ticks_period_boundary_is_shifted_negative() {
    // at a period boundary the one-second shift makes the instant negative
    assert_eq!(phase_ticks(4, 0, 2), -1_000_000_000);
    assert_eq!(phase_ticks(0, 750_000_000, 60), -250_000_000);
}

#[test]
fn phase_ticks_full_minute_period() {
    assert_eq!(phase_ticks(59, 0, 60), 58_000_000_000);
}

#[test]
fn phase_ticks_always_within_period_range() {
    for period in 1..=60i32 {
        for sec in 0..=60i32 {
            for nsec in [0i32, 1, 500_000_000, 999_999_999] {
                let r = phase_ticks(sec, nsec, period);
                assert!(r >= -1_000_000_000);
                assert!(r < i64::from(period) * 1_000_000_000);
            }
        }
    }
}

#[test]
fn current_phase_ticks_within_period_range() {
    for period in [1i32, 2, 59, 60] {
        let r = current_phase_ticks(period);
        assert!(r >= -1_000_000_000);
        assert!(r < i64::from(period) * 1_000_000_000);
    }
}
