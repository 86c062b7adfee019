use openshock_tui::gauge::{DisplayFormat, GaugeModel};
use openshock_tui::render::{render_gauge, GaugeVisual};

fn countdown(maximum: u16, value: u16) -> GaugeModel {
    GaugeModel::new("Shocking...".to_string(), 0, maximum, value, DisplayFormat::Countdown)
}

#[test]
fn finished_countdown_is_hidden() {
    assert_eq!(render_gauge(&countdown(300, 0), false), None);
    assert_eq!(render_gauge(&countdown(300, 0), true), None);
    assert_eq!(render_gauge(&countdown(0, 0), false), None);
}

#[test]
fn running_countdown_is_drawn() {
    for value in 1..=300u16 {
        assert!(render_gauge(&countdown(300, value), false).is_some());
    }
    let visual = render_gauge(&countdown(30, 1), false);
    assert_eq!(
        visual,
        Some(GaugeVisual {
            title: "Shocking...".to_string(),
            emphasized: false,
            label: "1.0 00 ms".to_string(),
            fill_numerator: 2,
            fill_denominator: 31,
        })
    );
}

#[test]
fn other_gauges_are_drawn_at_zero() {
    let intensity = GaugeModel::new("Strength".to_string(), 0, 100, 0, DisplayFormat::Percentage);
    let visual = render_gauge(&intensity, true);
    assert_eq!(
        visual,
        Some(GaugeVisual {
            title: "Strength".to_string(),
            emphasized: true,
            label: "0.0%".to_string(),
            fill_numerator: 1,
            fill_denominator: 101,
        })
    );
    let duration = GaugeModel::new("Duration".to_string(), 0, 300, 0, DisplayFormat::Duration);
    assert!(render_gauge(&duration, false).is_some());
}

#[test]
fn bar_is_full_only_at_the_maximum() {
    let full = GaugeModel::new("Duration".to_string(), 3, 300, 300, DisplayFormat::Duration);
    let visual = render_gauge(&full, false).unwrap();
    assert_eq!(visual.fill_numerator, 301);
    assert_eq!(visual.fill_denominator, 301);
    assert_eq!(visual.label, "30.0 s");
    let nearly = GaugeModel::new("Duration".to_string(), 3, 300, 299, DisplayFormat::Duration);
    let visual = render_gauge(&nearly, false).unwrap();
    assert_eq!(visual.fill_numerator, 300);
    assert_eq!(visual.fill_denominator, 301);
}

#[test]
fn bar_of_the_widest_gauge_does_not_overflow() {
    let g = GaugeModel::new("Wide".to_string(), 0, u16::MAX, u16::MAX, DisplayFormat::Percentage);
    let visual = render_gauge(&g, false).unwrap();
    assert_eq!(visual.fill_numerator, 65536);
    assert_eq!(visual.fill_denominator, 65536);
}

#[test]
fn selection_only_sets_the_emphasis() {
    let g = GaugeModel::new("Duration".to_string(), 3, 300, 25, DisplayFormat::Duration);
    let plain = render_gauge(&g, false).unwrap();
    let bold = render_gauge(&g, true).unwrap();
    assert!(!plain.emphasized);
    assert!(bold.emphasized);
    assert_eq!(plain.title, bold.title);
    assert_eq!(plain.label, bold.label);
    assert_eq!(plain.fill_numerator, bold.fill_numerator);
    assert_eq!(plain.fill_denominator, bold.fill_denominator);
}
