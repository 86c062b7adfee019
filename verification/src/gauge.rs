//! Bounded gauges: a number kept between two limits, with a display name
//! and a rule for writing the number as text.

use crate::decimal::{decimal, decimal_string};
use vstd::prelude::*;
use vstd::string::*;

verus! {

/// How a gauge writes its value. The format affects the text only, never
/// the number that is stored.
#[derive(Clone, Copy, Debug, PartialEq, Eq, Structural)]
pub enum DisplayFormat {
    /// A percentage.
    Percentage,
    /// A length of time, counted in ticks of a tenth of a second.
    Duration,
    /// The time a running command has left, in the same ticks.
    Countdown,
}

/// A bounded numeric parameter with a display name.
#[derive(Debug)]
pub struct GaugeModel {
    label: String,
    minimum: u16,
    maximum: u16,
    value: u16,
    display_format: DisplayFormat,
}

/// What a gauge holds, as mathematical values.
pub struct GaugeView {
    pub label: Seq<char>,
    pub minimum: int,
    pub maximum: int,
    pub value: int,
    pub display_format: DisplayFormat,
}

/// One change to a gauge's value.
pub enum GaugeOp {
    Increment,
    Decrement,
    Assign(int),
}

impl GaugeView {
    /// The value lies within the limits, and the limits fit the stored type.
    pub open spec fn well_formed(self) -> bool {
        0 <= self.minimum <= self.value <= self.maximum <= u16::MAX
    }

    /// One step up, unless the value is at the maximum already.
    pub open spec fn incremented(self) -> GaugeView {
        if self.value < self.maximum {
            GaugeView { value: self.value + 1, ..self }
        } else {
            self
        }
    }

    /// One step down, unless the value is at the minimum already.
    pub open spec fn decremented(self) -> GaugeView {
        if self.value > self.minimum {
            GaugeView { value: self.value - 1, ..self }
        } else {
            self
        }
    }

    /// The value replaced by `v`, brought to the nearer limit where `v` lies
    /// outside them.
    pub open spec fn with_value(self, v: int) -> GaugeView {
        let clamped = if v < self.minimum {
            self.minimum
        } else if v > self.maximum {
            self.maximum
        } else {
            v
        };
        GaugeView { value: clamped, ..self }
    }

    /// Maximum and value both moved to `span`, or to the minimum where
    /// `span` lies below it: a full gauge of a new size.
    pub open spec fn filled_to(self, span: int) -> GaugeView {
        let top = if span < self.minimum {
            self.minimum
        } else {
            span
        };
        GaugeView { maximum: top, value: top, ..self }
    }

    /// The same gauge under another name.
    pub open spec fn with_label(self, label: Seq<char>) -> GaugeView {
        GaugeView { label, ..self }
    }

    /// The value as text. A percentage is the number with one decimal place,
    /// which is always zero. A time below ten ticks is written in units of a
    /// hundred milliseconds; from ten ticks on it is written in seconds, the
    /// last digit of the tick count being the tenths.
    pub open spec fn value_text(self) -> Seq<char> {
        match self.display_format {
            DisplayFormat::Percentage => decimal(self.value as nat) + ".0%"@,
            DisplayFormat::Duration | DisplayFormat::Countdown => {
                if self.value < 10 {
                    decimal(self.value as nat) + ".0 00 ms"@
                } else {
                    decimal((self.value / 10) as nat) + "."@ + decimal((self.value % 10) as nat)
                        + " s"@
                }
            },
        }
    }

    /// The gauge after one change.
    pub open spec fn applied(self, op: GaugeOp) -> GaugeView {
        match op {
            GaugeOp::Increment => self.incremented(),
            GaugeOp::Decrement => self.decremented(),
            GaugeOp::Assign(v) => self.with_value(v),
        }
    }

    /// The gauge after a series of changes, the first of `ops` made first.
    pub open spec fn applied_all(self, ops: Seq<GaugeOp>) -> GaugeView
        decreases ops.len(),
    {
        if ops.len() == 0 {
            self
        } else {
            self.applied_all(ops.drop_last()).applied(ops.last())
        }
    }

    /// The gauge after `n` steps up.
    pub open spec fn incremented_times(self, n: nat) -> GaugeView
        decreases n,
    {
        if n == 0 {
            self
        } else {
            self.incremented_times((n - 1) as nat).incremented()
        }
    }

    /// The gauge after `n` steps down.
    pub open spec fn decremented_times(self, n: nat) -> GaugeView
        decreases n,
    {
        if n == 0 {
            self
        } else {
            self.decremented_times((n - 1) as nat).decremented()
        }
    }
}

impl View for GaugeModel {
    type V = GaugeView;

    closed spec fn view(&self) -> GaugeView {
        GaugeView {
            label: self.label@,
            minimum: self.minimum as int,
            maximum: self.maximum as int,
            value: self.value as int,
            display_format: self.display_format,
        }
    }
}

impl GaugeModel {
    /// Holds of every gauge at all times: the value lies within the limits.
    #[verifier::type_invariant]
    spec fn within_limits(&self) -> bool {
        self.minimum <= self.value <= self.maximum
    }

    /// A gauge with the given name, limits, value and format.
    pub fn new(
        label: String,
        minimum: u16,
        maximum: u16,
        value: u16,
        display_format: DisplayFormat,
    ) -> (gauge: GaugeModel)
        requires
            minimum <= value <= maximum,
        ensures
            gauge@ == (GaugeView {
                label: label@,
                minimum: minimum as int,
                maximum: maximum as int,
                value: value as int,
                display_format,
            }),
            gauge@.well_formed(),
    {
        GaugeModel { label, minimum, maximum, value, display_format }
    }

    /// The display name.
    pub fn label(&self) -> (label: &String)
        ensures
            label@ == self@.label,
        no_unwind
    {
        &self.label
    }

    /// The lower limit.
    pub fn minimum(&self) -> (minimum: u16)
        ensures
            minimum as int == self@.minimum,
            self@.well_formed(),
        no_unwind
    {
        proof {
            use_type_invariant(self);
        }
        self.minimum
    }

    /// The upper limit.
    pub fn maximum(&self) -> (maximum: u16)
        ensures
            maximum as int == self@.maximum,
            self@.well_formed(),
        no_unwind
    {
        proof {
            use_type_invariant(self);
        }
        self.maximum
    }

    /// The current value.
    pub fn value(&self) -> (value: u16)
        ensures
            value as int == self@.value,
            self@.well_formed(),
        no_unwind
    {
        proof {
            use_type_invariant(self);
        }
        self.value
    }

    /// The format in which the value is written.
    pub fn display_format(&self) -> (display_format: DisplayFormat)
        ensures
            display_format == self@.display_format,
        no_unwind
    {
        self.display_format
    }

    /// Raises the value by one; at the maximum nothing changes.
    pub fn clamp_increment(&mut self)
        ensures
            final(self)@ == old(self)@.incremented(),
            final(self)@.well_formed(),
        no_unwind
    {
        proof {
            use_type_invariant(&*self);
        }
        if self.value < self.maximum {
            self.value = self.value + 1;
        }
    }

    /// Lowers the value by one; at the minimum nothing changes.
    pub fn clamp_decrement(&mut self)
        ensures
            final(self)@ == old(self)@.decremented(),
            final(self)@.well_formed(),
        no_unwind
    {
        proof {
            use_type_invariant(&*self);
        }
        if self.value > self.minimum {
            self.value = self.value - 1;
        }
    }

    /// Sets the value. A value outside the limits is brought to the nearer
    /// limit.
    pub fn set(&mut self, value: u16)
        ensures
            final(self)@ == old(self)@.with_value(value as int),
            final(self)@.well_formed(),
        no_unwind
    {
        proof {
            use_type_invariant(&*self);
        }
        if value < self.minimum {
            self.value = self.minimum;
        } else if value > self.maximum {
            self.value = self.maximum;
        } else {
            self.value = value;
        }
    }

    /// Resizes the gauge to `span` and fills it: maximum and value both
    /// become `span`. A span below the minimum is raised to the minimum.
    pub fn fill_to(&mut self, span: u16)
        ensures
            final(self)@ == old(self)@.filled_to(span as int),
            final(self)@.well_formed(),
        no_unwind
    {
        proof {
            use_type_invariant(&*self);
        }
        let top: u16 = if span < self.minimum {
            self.minimum
        } else {
            span
        };
        // The value never leaves the limits, not even between the two
        // assignments.
        if top < self.value {
            self.value = top;
            self.maximum = top;
        } else {
            self.maximum = top;
            self.value = top;
        }
    }

    /// Renames the gauge.
    pub fn set_label(&mut self, label: String)
        ensures
            final(self)@ == old(self)@.with_label(label@),
            final(self)@.well_formed(),
        no_unwind
    {
        proof {
            use_type_invariant(&*self);
        }
        self.label = label;
    }

    /// Writes the value as text, in the gauge's format.
    pub fn format_label(&self) -> (text: String)
        ensures
            text@ == self@.value_text(),
    {
        match self.display_format {
            DisplayFormat::Percentage => {
                let mut text = decimal_string(self.value);
                text.append(".0%");
                text
            },
            DisplayFormat::Duration | DisplayFormat::Countdown => {
                if self.value < 10 {
                    let mut text = decimal_string(self.value);
                    text.append(".0 00 ms");
                    text
                } else {
                    let mut text = decimal_string(self.value / 10);
                    let tenths = decimal_string(self.value % 10);
                    text.append(".");
                    text.append(tenths.as_str());
                    text.append(" s");
                    text
                }
            },
        }
    }
}

impl Clone for GaugeModel {
    /// A second gauge with the same name, limits, value and format.
    fn clone(&self) -> (copy: GaugeModel)
        ensures
            copy@ == self@,
    {
        proof {
            use_type_invariant(self);
        }
        GaugeModel {
            label: self.label.clone(),
            minimum: self.minimum,
            maximum: self.maximum,
            value: self.value,
            display_format: self.display_format,
        }
    }
}

/// Every change keeps the value within the limits and leaves the limits,
/// the name and the format as they were.
pub proof fn change_keeps_bounds(gauge: GaugeView, op: GaugeOp)
    requires
        gauge.well_formed(),
    ensures
        gauge.applied(op).well_formed(),
        gauge.applied(op) == (GaugeView { value: gauge.applied(op).value, ..gauge }),
{
}

/// After any series of increments, decrements and sets the value still lies
/// within the limits, which are the ones the gauge started with.
pub proof fn changes_keep_bounds(gauge: GaugeView, ops: Seq<GaugeOp>)
    requires
        gauge.well_formed(),
    ensures
        gauge.applied_all(ops).well_formed(),
        gauge.applied_all(ops).minimum == gauge.minimum,
        gauge.applied_all(ops).maximum == gauge.maximum,
    decreases ops.len(),
{
    if ops.len() > 0 {
        changes_keep_bounds(gauge, ops.drop_last());
        change_keeps_bounds(gauge.applied_all(ops.drop_last()), ops.last());
    }
}

/// Stepping up `n` times adds `n` to the value until the maximum is
/// reached, where it stays however many steps follow.
pub proof fn increments_stop_at_maximum(gauge: GaugeView, n: nat)
    requires
        gauge.well_formed(),
    ensures
        gauge.incremented_times(n) == (GaugeView {
            value: if gauge.value + n <= gauge.maximum {
                gauge.value + n
            } else {
                gauge.maximum
            },
            ..gauge
        }),
    decreases n,
{
    if n > 0 {
        increments_stop_at_maximum(gauge, (n - 1) as nat);
    }
}

/// Stepping down `n` times takes `n` from the value until the minimum is
/// reached, where it stays however many steps follow.
pub proof fn decrements_stop_at_minimum(gauge: GaugeView, n: nat)
    requires
        gauge.well_formed(),
    ensures
        gauge.decremented_times(n) == (GaugeView {
            value: if gauge.value - n >= gauge.minimum {
                gauge.value - n
            } else {
                gauge.minimum
            },
            ..gauge
        }),
    decreases n,
{
    if n > 0 {
        decrements_stop_at_minimum(gauge, (n - 1) as nat);
    }
}

/// At the maximum a step up changes nothing, and at the minimum a step
/// down changes nothing.
pub proof fn steps_at_the_limits_change_nothing(gauge: GaugeView)
    ensures
        gauge.value == gauge.maximum ==> gauge.incremented() == gauge,
        gauge.value == gauge.minimum ==> gauge.decremented() == gauge,
{
}

} // verus!
