use openshock_tui::clock::{refresh_countdown, remaining_ticks, TICK_MS};
use openshock_tui::gauge::{DisplayFormat, GaugeModel};

#[test]
fn a_tick_is_a_tenth_of_a_second() {
    assert_eq!(TICK_MS, 100);
}

#[test]
fn remaining_ticks_counts_whole_ticks() {
    assert_eq!(remaining_ticks(30, 0), 30);
    assert_eq!(remaining_ticks(30, 99), 30);
    assert_eq!(remaining_ticks(30, 100), 29);
    assert_eq!(remaining_ticks(30, 199), 29);
    assert_eq!(remaining_ticks(30, 1500), 15);
    assert_eq!(remaining_ticks(30, 2899), 2);
    assert_eq!(remaining_ticks(30, 2900), 1);
    assert_eq!(remaining_ticks(30, 2999), 1);
    assert_eq!(remaining_ticks(30, 3000), 0);
    assert_eq!(remaining_ticks(30, 3001), 0);
    assert_eq!(remaining_ticks(30, 1_000_000), 0);
}

#[test]
fn remaining_ticks_at_the_limits() {
    assert_eq!(remaining_ticks(0, 0), 0);
    assert_eq!(remaining_ticks(0, 5000), 0);
    assert_eq!(remaining_ticks(u16::MAX, 0), u16::MAX);
    assert_eq!(remaining_ticks(u16::MAX, 6_553_400), 1);
    assert_eq!(remaining_ticks(u16::MAX, 6_553_500), 0);
    assert_eq!(remaining_ticks(300, u64::MAX), 0);
}

#[test]
fn remaining_ticks_stays_zero_after_very_long_times() {
    // 65537 ticks have passed: far more than the 300 that were set.
    assert_eq!(remaining_ticks(300, 6_553_700), 0);
    assert_eq!(remaining_ticks(300, 6_553_600), 0);
    assert_eq!(remaining_ticks(300, 13_107_300), 0);
}

#[test]
fn remaining_ticks_never_grows_with_time() {
    let mut last = remaining_ticks(300, 0);
    let mut elapsed: u64 = 0;
    while elapsed <= 31_000 {
        let left = remaining_ticks(300, elapsed);
        assert!(left <= last);
        assert!(left <= 300);
        assert_eq!(left == 0, elapsed >= 30_000);
        last = left;
        elapsed += 7;
    }
}

#[test]
fn refresh_sets_a_running_countdown_from_its_maximum() {
    let mut g = GaugeModel::new("Shocking...".to_string(), 0, 30, 30, DisplayFormat::Countdown);
    refresh_countdown(&mut g, 1234);
    assert_eq!(g.value(), 18);
    assert_eq!(g.maximum(), 30);
    refresh_countdown(&mut g, 2950);
    assert_eq!(g.value(), 1);
    refresh_countdown(&mut g, 3000);
    assert_eq!(g.value(), 0);
}

#[test]
fn refresh_goes_by_the_time_alone() {
    let mut stepped = GaugeModel::new("a".to_string(), 0, 30, 30, DisplayFormat::Countdown);
    refresh_countdown(&mut stepped, 500);
    refresh_countdown(&mut stepped, 900);
    refresh_countdown(&mut stepped, 2000);
    let mut direct = GaugeModel::new("a".to_string(), 0, 30, 30, DisplayFormat::Countdown);
    refresh_countdown(&mut direct, 2000);
    assert_eq!(stepped.value(), 10);
    assert_eq!(direct.value(), 10);
}

#[test]
fn refresh_leaves_a_finished_countdown_at_zero() {
    let mut g = GaugeModel::new("Shocking...".to_string(), 0, 30, 0, DisplayFormat::Countdown);
    refresh_countdown(&mut g, 0);
    assert_eq!(g.value(), 0);
    refresh_countdown(&mut g, 100);
    assert_eq!(g.value(), 0);
    assert_eq!(g.maximum(), 30);
}
