//! How a knob looks: where its label goes, what marks its position, and its
//! colours.

use vstd::prelude::*;

verus! {

/// Position of the label relative to the knob.
#[derive(Clone, Copy, Debug, PartialEq, Eq, Structural)]
pub enum LabelPosition {
    Top,
    Bottom,
    Left,
    Right,
}

/// Visual style of the knob indicator.
#[derive(Clone, Copy, Debug, PartialEq, Eq, Structural)]
pub enum KnobStyle {
    /// A line extending from the center to the edge.
    Wiper,
    /// A dot on the edge of the knob.
    Dot,
}

/// A colour as four bytes: red, green, blue and alpha, the first three
/// already multiplied by alpha.
#[derive(Clone, Copy, Debug, PartialEq, Eq, Structural)]
pub struct Rgba8 {
    pub r: u8,
    pub g: u8,
    pub b: u8,
    pub a: u8,
}

impl Rgba8 {
    /// The grey of an idle knob's outline and of its indicator.
    pub open spec fn gray_spec() -> Rgba8 {
        Rgba8 { r: 160, g: 160, b: 160, a: 255 }
    }

    /// The white of a dragged knob's outline and of the label.
    pub open spec fn white_spec() -> Rgba8 {
        Rgba8 { r: 255, g: 255, b: 255, a: 255 }
    }

    /// An opaque colour.
    pub fn from_rgb(r: u8, g: u8, b: u8) -> (c: Rgba8)
        ensures
            c == (Rgba8 { r, g, b, a: 255 }),
    {
        Rgba8 { r, g, b, a: 255 }
    }

    /// The grey of an idle knob's outline and of its indicator.
    #[verifier::when_used_as_spec(gray_spec)]
    pub fn gray() -> (c: Rgba8)
        ensures
            c == Rgba8::gray_spec(),
    {
        Rgba8::from_rgb(160, 160, 160)
    }

    /// The white of a dragged knob's outline and of the label.
    #[verifier::when_used_as_spec(white_spec)]
    pub fn white() -> (c: Rgba8)
        ensures
            c == Rgba8::white_spec(),
    {
        Rgba8::from_rgb(255, 255, 255)
    }
}

} // verus!
