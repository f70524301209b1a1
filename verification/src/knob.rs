//! The knob: what it is set up with, and what it does with a frame's input.

use crate::binary32::{Binary32, ONE_BITS};
use crate::normalise::KnobSpec;
use crate::range::ValueRange;
use crate::style::{KnobStyle, LabelPosition, Rgba8};
use vstd::prelude::*;

verus! {

/// Forty, as a bit pattern: the diameter of a knob that was given none.
pub const SIZE_BITS: u32 = 0x4220_0000;

/// Twelve, as a bit pattern: the label's font size where none was given.
pub const FONT_SIZE_BITS: u32 = 0x4140_0000;

/// Two, as a bit pattern: the width of the outline where none was given.
pub const STROKE_WIDTH_BITS: u32 = 0x4000_0000;

/// One, as a bit pattern: the gap between knob and label where none was given.
pub const LABEL_OFFSET_BITS: u32 = ONE_BITS;

/// A fifth, as a bit pattern: with a modifier key held, the pointer's travel
/// counts this much.
pub const KNOB_FINE_DRAG_RATIO_BITS: u32 = 0x3e4c_cccd;

/// Five thousandths, as a bit pattern: how far one unit of the pointer's
/// travel moves a knob without a step, as a share of the whole turn.
pub const DRAG_STEP_BITS: u32 = 0x3ba3_d70a;

/// A circular knob that is dragged to change a value.
///
/// The knob holds no state of its own between frames: it is made anew for
/// each frame from the value that the caller keeps, and tells the caller
/// what the value is to become.
#[derive(Debug)]
pub struct Knob {
    /// The value shown, limited to the range.
    pub value: Binary32,
    pub range: ValueRange,
    pub spec: KnobSpec,
    /// The diameter.
    pub size: Binary32,
    pub font_size: Binary32,
    /// The width of the outline, and two thirds of that of the indicator.
    pub stroke_width: Binary32,
    /// The outline at rest.
    pub knob_color: Rgba8,
    /// The outline while the knob is dragged.
    pub knob_dragging_color: Rgba8,
    /// The indicator.
    pub line_color: Rgba8,
    /// The label.
    pub text_color: Rgba8,
    pub label: Option<String>,
    pub label_position: LabelPosition,
    pub style: KnobStyle,
    /// The gap between knob and label.
    pub label_offset: Binary32,
    /// Where set, the value moves in steps of this size.
    pub step: Option<Binary32>,
    /// Where set, a double click brings the value here.
    pub neutral: Option<Binary32>,
    /// A knob that is not enabled shows its value and never changes it.
    pub enabled: bool,
}

impl Knob {
    /// The knob as [`Knob::new`] makes it.
    pub open spec fn initial(value: Binary32, range: ValueRange, style: KnobStyle) -> Knob {
        Knob {
            value: range.clamped(value),
            range,
            spec: KnobSpec::initial(),
            size: Binary32 { bits: SIZE_BITS },
            font_size: Binary32 { bits: FONT_SIZE_BITS },
            stroke_width: Binary32 { bits: STROKE_WIDTH_BITS },
            knob_color: Rgba8::gray_spec(),
            knob_dragging_color: Rgba8::white_spec(),
            line_color: Rgba8::gray_spec(),
            text_color: Rgba8::white_spec(),
            label: None,
            label_position: LabelPosition::Bottom,
            style,
            label_offset: Binary32 { bits: LABEL_OFFSET_BITS },
            step: None,
            neutral: None,
            enabled: true,
        }
    }

    /// The value lies within the range: limiting it to the range changes
    /// nothing.
    pub open spec fn value_in_range(self) -> bool {
        self.range.clamped(self.value) == self.value
    }

    /// Creates a knob for `value`, limited to `range`: linear, enabled,
    /// without label, step or neutral value, forty across, grey at rest and
    /// white while dragged.
    pub fn new(value: Binary32, range: ValueRange, style: KnobStyle) -> (knob: Knob)
        ensures
            knob == Knob::initial(value, range, style),
            knob.value_in_range(),
    {
        Knob {
            value: range.clamp(value),
            range,
            spec: KnobSpec::default(),
            size: Binary32::from_bits(SIZE_BITS),
            font_size: Binary32::from_bits(FONT_SIZE_BITS),
            stroke_width: Binary32::from_bits(STROKE_WIDTH_BITS),
            knob_color: Rgba8::gray(),
            knob_dragging_color: Rgba8::white(),
            line_color: Rgba8::gray(),
            text_color: Rgba8::white(),
            label: None,
            label_position: LabelPosition::Bottom,
            style,
            label_offset: Binary32::from_bits(LABEL_OFFSET_BITS),
            step: None,
            neutral: None,
            enabled: true,
        }
    }

    /// Sets the size of the knob.
    pub fn with_size(self, size: Binary32) -> (knob: Knob)
        ensures
            knob == (Knob { size, ..self }),
    {
        Knob { size, ..self }
    }

    /// Sets the font size for the label.
    pub fn with_font_size(self, size: Binary32) -> (knob: Knob)
        ensures
            knob == (Knob { font_size: size, ..self }),
    {
        Knob { font_size: size, ..self }
    }

    /// Sets the stroke width for the knob's outline and indicator.
    pub fn with_stroke_width(self, width: Binary32) -> (knob: Knob)
        ensures
            knob == (Knob { stroke_width: width, ..self }),
    {
        Knob { stroke_width: width, ..self }
    }

    /// Sets the colours of the outline at rest, of the outline while the knob
    /// is dragged, of the indicator and of the label.
    pub fn with_colors(
        self,
        knob_color: Rgba8,
        knob_dragging_color: Rgba8,
        line_color: Rgba8,
        text_color: Rgba8,
    ) -> (knob: Knob)
        ensures
            knob == (Knob { knob_color, knob_dragging_color, line_color, text_color, ..self }),
    {
        Knob { knob_color, knob_dragging_color, line_color, text_color, ..self }
    }

    /// Adds a label to the knob, at the given side of it.
    pub fn with_label(self, label: String, position: LabelPosition) -> (knob: Knob)
        ensures
            knob == (Knob { label: Some(label), label_position: position, ..self }),
    {
        Knob { label: Some(label), label_position: position, ..self }
    }

    /// Sets the spacing between the knob and its label.
    pub fn with_label_offset(self, offset: Binary32) -> (knob: Knob)
        ensures
            knob == (Knob { label_offset: offset, ..self }),
    {
        Knob { label_offset: offset, ..self }
    }

    /// Sets the step size for value changes: the value then snaps to
    /// discrete steps as the knob is dragged.
    pub fn with_step(self, step: Binary32) -> (knob: Knob)
        ensures
            knob == (Knob { step: Some(step), ..self }),
    {
        Knob { step: Some(step), ..self }
    }

    /// Sets the neutral value, to which a double click resets the knob.
    pub fn with_neutral(self, neutral: Binary32) -> (knob: Knob)
        ensures
            knob == (Knob { neutral: Some(neutral), ..self }),
    {
        Knob { neutral: Some(neutral), ..self }
    }

    /// Enables or disables the knob.
    pub fn enabled(self, enabled: bool) -> (knob: Knob)
        ensures
            knob == (Knob { enabled, ..self }),
    {
        Knob { enabled, ..self }
    }

    /// Makes this a logarithmic knob, or a linear one again.
    pub fn logarithmic(self, logarithmic: bool) -> (knob: Knob)
        ensures
            knob == (Knob { spec: KnobSpec { logarithmic, ..self.spec }, ..self }),
    {
        Knob { spec: KnobSpec { logarithmic, ..self.spec }, ..self }
    }

    /// For logarithmic knobs that include zero: the smallest magnitude that
    /// can be selected before the value goes to zero. The sign of what is
    /// given is dropped, so the same serves ranges on either side of zero.
    pub fn smallest_finite(self, smallest_finite: Binary32) -> (knob: Knob)
        ensures
            knob == (Knob {
                spec: KnobSpec { smallest_finite: smallest_finite.absolute_value(), ..self.spec },
                ..self
            }),
            knob.spec.smallest_finite@ == smallest_finite@.absolute(),
    {
        Knob { spec: KnobSpec { smallest_finite: smallest_finite.abs(), ..self.spec }, ..self }
    }

    /// For logarithmic knobs that go to infinity: the largest magnitude that
    /// can be selected before the value goes to infinity. The sign of what is
    /// given is dropped, so the same serves ranges on either side of zero.
    pub fn largest_finite(self, largest_finite: Binary32) -> (knob: Knob)
        ensures
            knob == (Knob {
                spec: KnobSpec { largest_finite: largest_finite.absolute_value(), ..self.spec },
                ..self
            }),
            knob.spec.largest_finite@ == largest_finite@.absolute(),
    {
        Knob { spec: KnobSpec { largest_finite: largest_finite.abs(), ..self.spec }, ..self }
    }
}

} // verus!
