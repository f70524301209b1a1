//! A rotary knob: the rules by which it maps its value to a position and
//! answers the pointer, proved; the drawing and the arithmetic on
//! floating-point numbers are the host's.

pub mod binary32;
pub mod interaction;
pub mod knob;
pub mod label;
pub mod normalise;
pub mod range;
pub mod style;

pub use knob::Knob;
pub use normalise::{normalised_from_value, value_from_normalised};
pub use style::{KnobStyle, LabelPosition};
