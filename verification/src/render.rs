//! What a gauge looks like: a title, a label and a bar, or nothing at all.
//! The result is a description in plain values; drawing it is the caller's
//! part.

use crate::gauge::{DisplayFormat, GaugeModel, GaugeView};
use vstd::prelude::*;
use vstd::string::*;

verus! {

/// A gauge as it is to be drawn.
#[derive(Clone, Debug, PartialEq, Eq)]
pub struct GaugeVisual {
    /// The gauge's name, shown above the bar.
    pub title: String,
    /// Whether the title is drawn bold.
    pub emphasized: bool,
    /// The value as text, shown on the bar.
    pub label: String,
    /// The filled part of the bar is `fill_numerator / fill_denominator`
    /// of its length.
    pub fill_numerator: u32,
    pub fill_denominator: u32,
}

/// A drawn gauge as mathematical values.
pub struct GaugeVisualView {
    pub title: Seq<char>,
    pub emphasized: bool,
    pub label: Seq<char>,
    pub fill_numerator: int,
    pub fill_denominator: int,
}

impl View for GaugeVisual {
    type V = GaugeVisualView;

    open spec fn view(&self) -> GaugeVisualView {
        GaugeVisualView {
            title: self.title@,
            emphasized: self.emphasized,
            label: self.label@,
            fill_numerator: self.fill_numerator as int,
            fill_denominator: self.fill_denominator as int,
        }
    }
}

/// A countdown that has run out is not drawn.
pub open spec fn is_hidden(gauge: GaugeView) -> bool {
    gauge.display_format == DisplayFormat::Countdown && gauge.value == 0
}

/// The picture of a gauge that is drawn: the title is the gauge's name,
/// bold when the gauge is selected; the label is the value as text; the bar
/// is filled to `(value + 1) / (maximum + 1)`.
pub open spec fn picture(gauge: GaugeView, is_selected: bool) -> GaugeVisualView {
    GaugeVisualView {
        title: gauge.label,
        emphasized: is_selected,
        label: gauge.value_text(),
        fill_numerator: gauge.value + 1,
        fill_denominator: gauge.maximum + 1,
    }
}

/// `visual` is what is drawn for `gauge`: nothing where the gauge is hidden,
/// else its picture.
pub open spec fn shows(visual: Option<GaugeVisual>, gauge: GaugeView, is_selected: bool) -> bool {
    match visual {
        None => is_hidden(gauge),
        Some(v) => !is_hidden(gauge) && v@ == picture(gauge, is_selected),
    }
}

/// Describes how `gauge` is to be drawn, or returns `None` for a gauge that
/// is hidden.
pub fn render_gauge(gauge: &GaugeModel, is_selected: bool) -> (visual: Option<GaugeVisual>)
    ensures
        shows(visual, gauge@, is_selected),
{
    let value: u16 = gauge.value();
    let hidden = match gauge.display_format() {
        DisplayFormat::Countdown => value == 0,
        _ => false,
    };
    if hidden {
        None
    } else {
        let maximum: u16 = gauge.maximum();
        Some(
            GaugeVisual {
                title: gauge.label().clone(),
                emphasized: is_selected,
                label: gauge.format_label(),
                fill_numerator: value as u32 + 1,
                fill_denominator: maximum as u32 + 1,
            },
        )
    }
}

/// A countdown gauge is hidden at zero and drawn at every other value; a
/// gauge of another format is always drawn.
pub proof fn only_a_finished_countdown_is_hidden(gauge: GaugeView)
    ensures
        gauge.display_format == DisplayFormat::Countdown ==> (is_hidden(gauge) <==> gauge.value
            == 0),
        gauge.display_format != DisplayFormat::Countdown ==> !is_hidden(gauge),
{
}

/// The bar of a drawn gauge is never empty, never longer than full, and
/// full only when the value is at the maximum.
pub proof fn bar_is_never_empty(gauge: GaugeView, is_selected: bool)
    requires
        gauge.well_formed(),
    ensures
        0 < picture(gauge, is_selected).fill_numerator <= picture(
            gauge,
            is_selected,
        ).fill_denominator,
        picture(gauge, is_selected).fill_numerator == picture(gauge, is_selected).fill_denominator
            <==> gauge.value == gauge.maximum,
{
}

} // verus!
