use openshock_tui::decimal::decimal_string;
use openshock_tui::gauge::{DisplayFormat, GaugeModel};

fn gauge(minimum: u16, maximum: u16, value: u16, format: DisplayFormat) -> GaugeModel {
    GaugeModel::new("Gauge".to_string(), minimum, maximum, value, format)
}

fn within_limits(g: &GaugeModel) -> bool {
    g.minimum() <= g.value() && g.value() <= g.maximum()
}

#[test]
fn decimal_string_writes_plain_digits() {
    assert_eq!(decimal_string(0), "0");
    assert_eq!(decimal_string(7), "7");
    assert_eq!(decimal_string(9), "9");
    assert_eq!(decimal_string(10), "10");
    assert_eq!(decimal_string(300), "300");
    assert_eq!(decimal_string(1234), "1234");
    assert_eq!(decimal_string(65535), "65535");
}

#[test]
fn decimal_string_agrees_with_std_for_every_value() {
    let mut n: u16 = 0;
    loop {
        assert_eq!(decimal_string(n), format!("{}", n));
        if n == u16::MAX {
            break;
        }
        n += 1;
    }
}

#[test]
fn new_gauge_holds_what_it_was_given() {
    let g = GaugeModel::new("Strength".to_string(), 0, 100, 1, DisplayFormat::Percentage);
    assert_eq!(g.label(), "Strength");
    assert_eq!(g.minimum(), 0);
    assert_eq!(g.maximum(), 100);
    assert_eq!(g.value(), 1);
    assert_eq!(g.display_format(), DisplayFormat::Percentage);
}

#[test]
fn increment_adds_one_below_the_maximum() {
    let mut g = gauge(0, 100, 41, DisplayFormat::Percentage);
    g.clamp_increment();
    assert_eq!(g.value(), 42);
    assert_eq!(g.minimum(), 0);
    assert_eq!(g.maximum(), 100);
}

#[test]
fn increment_stops_at_the_maximum() {
    let mut g = gauge(0, 100, 98, DisplayFormat::Percentage);
    g.clamp_increment();
    assert_eq!(g.value(), 99);
    g.clamp_increment();
    assert_eq!(g.value(), 100);
    for _ in 0..10 {
        g.clamp_increment();
        assert_eq!(g.value(), 100);
    }
}

#[test]
fn increment_at_the_top_of_the_type_does_not_overflow() {
    let mut g = gauge(0, u16::MAX, u16::MAX - 1, DisplayFormat::Percentage);
    g.clamp_increment();
    assert_eq!(g.value(), u16::MAX);
    g.clamp_increment();
    assert_eq!(g.value(), u16::MAX);
}

#[test]
fn decrement_takes_one_above_the_minimum() {
    let mut g = gauge(3, 300, 30, DisplayFormat::Duration);
    g.clamp_decrement();
    assert_eq!(g.value(), 29);
}

#[test]
fn decrement_stops_at_the_minimum() {
    let mut g = gauge(3, 300, 5, DisplayFormat::Duration);
    g.clamp_decrement();
    assert_eq!(g.value(), 4);
    g.clamp_decrement();
    assert_eq!(g.value(), 3);
    for _ in 0..10 {
        g.clamp_decrement();
        assert_eq!(g.value(), 3);
    }
    let mut zero = gauge(0, 100, 0, DisplayFormat::Percentage);
    zero.clamp_decrement();
    assert_eq!(zero.value(), 0);
}

#[test]
fn set_takes_a_value_within_the_limits() {
    let mut g = gauge(3, 300, 3, DisplayFormat::Duration);
    g.set(120);
    assert_eq!(g.value(), 120);
    g.set(3);
    assert_eq!(g.value(), 3);
    g.set(300);
    assert_eq!(g.value(), 300);
}

#[test]
fn set_brings_a_value_outside_the_limits_to_the_nearer_limit() {
    let mut g = gauge(3, 300, 50, DisplayFormat::Duration);
    g.set(301);
    assert_eq!(g.value(), 300);
    g.set(u16::MAX);
    assert_eq!(g.value(), 300);
    g.set(2);
    assert_eq!(g.value(), 3);
    g.set(0);
    assert_eq!(g.value(), 3);
}

#[test]
fn value_stays_within_limits_after_any_changes() {
    let mut g = gauge(3, 300, 3, DisplayFormat::Duration);
    let mut seed: u32 = 12345;
    for _ in 0..5000 {
        seed = seed.wrapping_mul(1_103_515_245).wrapping_add(12345);
        match (seed >> 16) % 3 {
            0 => g.clamp_increment(),
            1 => g.clamp_decrement(),
            _ => g.set((seed >> 8) as u16 % 700),
        }
        assert!(within_limits(&g));
        assert_eq!(g.minimum(), 3);
        assert_eq!(g.maximum(), 300);
    }
}

#[test]
fn fill_to_resizes_and_fills() {
    let mut g = gauge(0, 300, 0, DisplayFormat::Countdown);
    g.fill_to(30);
    assert_eq!(g.maximum(), 30);
    assert_eq!(g.value(), 30);
    assert_eq!(g.minimum(), 0);
    g.fill_to(5);
    assert_eq!(g.maximum(), 5);
    assert_eq!(g.value(), 5);
}

#[test]
fn fill_to_does_not_go_below_the_minimum() {
    let mut g = gauge(3, 300, 100, DisplayFormat::Duration);
    g.fill_to(1);
    assert_eq!(g.maximum(), 3);
    assert_eq!(g.value(), 3);
    assert_eq!(g.minimum(), 3);
}

#[test]
fn set_label_renames_only() {
    let mut g = gauge(0, 300, 12, DisplayFormat::Countdown);
    g.set_label("Stopping...".to_string());
    assert_eq!(g.label(), "Stopping...");
    assert_eq!(g.value(), 12);
    assert_eq!(g.minimum(), 0);
    assert_eq!(g.maximum(), 300);
    assert_eq!(g.display_format(), DisplayFormat::Countdown);
}

#[test]
fn percentage_label_has_one_decimal_place() {
    assert_eq!(gauge(0, 100, 0, DisplayFormat::Percentage).format_label(), "0.0%");
    assert_eq!(gauge(0, 100, 1, DisplayFormat::Percentage).format_label(), "1.0%");
    assert_eq!(gauge(0, 100, 50, DisplayFormat::Percentage).format_label(), "50.0%");
    assert_eq!(gauge(0, 100, 100, DisplayFormat::Percentage).format_label(), "100.0%");
}

#[test]
fn duration_label_below_ten_is_in_hundred_milliseconds() {
    assert_eq!(gauge(3, 300, 7, DisplayFormat::Duration).format_label(), "7.0 00 ms");
    assert_eq!(gauge(3, 300, 3, DisplayFormat::Duration).format_label(), "3.0 00 ms");
    assert_eq!(gauge(3, 300, 9, DisplayFormat::Duration).format_label(), "9.0 00 ms");
}

#[test]
fn duration_label_from_ten_on_is_in_seconds() {
    assert_eq!(gauge(3, 300, 10, DisplayFormat::Duration).format_label(), "1.0 s");
    assert_eq!(gauge(3, 300, 11, DisplayFormat::Duration).format_label(), "1.1 s");
    assert_eq!(gauge(3, 300, 25, DisplayFormat::Duration).format_label(), "2.5 s");
    assert_eq!(gauge(3, 300, 30, DisplayFormat::Duration).format_label(), "3.0 s");
    assert_eq!(gauge(3, 300, 299, DisplayFormat::Duration).format_label(), "29.9 s");
    assert_eq!(gauge(3, 300, 300, DisplayFormat::Duration).format_label(), "30.0 s");
}

#[test]
fn countdown_label_follows_the_duration_rule() {
    assert_eq!(gauge(0, 300, 0, DisplayFormat::Countdown).format_label(), "0.0 00 ms");
    assert_eq!(gauge(0, 300, 7, DisplayFormat::Countdown).format_label(), "7.0 00 ms");
    assert_eq!(gauge(0, 300, 9, DisplayFormat::Countdown).format_label(), "9.0 00 ms");
    assert_eq!(gauge(0, 300, 10, DisplayFormat::Countdown).format_label(), "1.0 s");
    assert_eq!(gauge(0, 300, 25, DisplayFormat::Countdown).format_label(), "2.5 s");
}

#[test]
fn format_does_not_change_the_number() {
    let g = gauge(0, 300, 25, DisplayFormat::Countdown);
    let _ = g.format_label();
    assert_eq!(g.value(), 25);
}

#[test]
fn clone_is_a_second_gauge_with_the_same_content() {
    let mut g = gauge(3, 300, 25, DisplayFormat::Duration);
    let copy = g.clone();
    g.clamp_increment();
    assert_eq!(copy.label(), "Gauge");
    assert_eq!(copy.minimum(), 3);
    assert_eq!(copy.maximum(), 300);
    assert_eq!(copy.value(), 25);
    assert_eq!(copy.display_format(), DisplayFormat::Duration);
    assert_eq!(g.value(), 26);
}
