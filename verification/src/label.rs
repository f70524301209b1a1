//! The text beside a knob.

use crate::binary32::Binary32;
use vstd::prelude::*;
use vstd::string::StringExecFns;

verus! {

/// One hundredth, as a bit pattern: magnitudes up to here are written in
/// scientific notation by default.
pub const SMALL_VALUE_BITS: u32 = 0x3c23_d70a;

/// How a value is written where the caller gave no format of its own.
#[derive(Clone, Copy, Debug, PartialEq, Eq, Structural)]
pub enum Notation {
    /// With two digits after the point.
    Fixed,
    /// With a sign, one digit after the point and a power of ten: used for
    /// values near zero, which two digits after the point would all show as
    /// nought.
    Scientific,
}

/// Zero, and every value whose magnitude is above one hundredth, is written
/// in fixed notation; everything else, a NaN included, in scientific.
pub open spec fn notation_for(value: Binary32) -> Notation {
    if value@.absolute().gt((Binary32 { bits: SMALL_VALUE_BITS })@) || value@.is_zero() {
        Notation::Fixed
    } else {
        Notation::Scientific
    }
}

/// The notation in which `value` is written by default.
pub fn default_notation(value: Binary32) -> (notation: Notation)
    ensures
        notation == notation_for(value),
{
    if value.abs().gt(Binary32::from_bits(SMALL_VALUE_BITS)) || value.is_zero() {
        Notation::Fixed
    } else {
        Notation::Scientific
    }
}

/// The label followed by a colon, a blank and the value.
pub open spec fn labelled(label: Seq<char>, value: Seq<char>) -> Seq<char> {
    label + seq![':', ' '] + value
}

/// The text drawn beside the knob: the written value alone where the label is
/// empty, else label and value.
pub fn label_text(label: &str, value: &str) -> (text: String)
    ensures
        text@ == if label@.len() == 0 {
            value@
        } else {
            labelled(label@, value@)
        },
{
    if label.is_empty() {
        String::from_str(value)
    } else {
        sizing_text(label, value)
    }
}

/// The text by which room is set aside for the label: label and value, also
/// where the label is empty. It is measured with the value at the end of the
/// range, so that the knob keeps its place while the value changes.
pub fn sizing_text(label: &str, value: &str) -> (text: String)
    ensures
        text@ == labelled(label@, value@),
{
    proof {
        reveal_strlit(": ");
        assert(": "@ =~= seq![':', ' ']);
    }
    String::from_str(label).concat(": ").concat(value)
}

} // verus!
