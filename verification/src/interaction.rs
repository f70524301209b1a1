//! What a knob does with one frame of input.
//!
//! Once per frame the host reports what happened to the knob's region of the
//! screen. From that and the knob's settings follow the state the knob is in,
//! what is to be done about its value, and whether the caller is to be told
//! that the user let go.

use crate::binary32::Binary32;
use crate::knob::Knob;
use vstd::prelude::*;

verus! {

/// What the host reports of the knob's region in one frame.
#[derive(Clone, Copy, Debug, PartialEq, Eq, Structural)]
pub struct Frame {
    /// The region was double-clicked.
    pub double_clicked: bool,
    /// The pointer is held down on the region: a drag began or goes on.
    pub dragged: bool,
    /// The pointer was let go after a drag.
    pub drag_stopped: bool,
    /// The region lost the input focus.
    pub lost_focus: bool,
    /// The control key is held.
    pub ctrl: bool,
    /// The shift key is held.
    pub shift: bool,
    /// The alt key is held.
    pub alt: bool,
}

impl Frame {
    /// One of the keys for fine adjustment is held.
    pub open spec fn fine(self) -> bool {
        self.ctrl || self.shift || self.alt
    }

    /// The user let go of the knob, by releasing the pointer or by the
    /// region losing the focus.
    pub open spec fn released(self) -> bool {
        self.drag_stopped || self.lost_focus
    }
}

/// The state of a knob.
#[derive(Clone, Copy, Debug, PartialEq, Eq, Structural)]
pub enum Interaction {
    /// At rest.
    Idle,
    /// Following the pointer.
    Dragging,
    /// Shown, and never changed.
    Disabled,
}

/// How a drag moves the value.
///
/// The pointer's upward travel is turned into a move along the knob's
/// positions: for each unit of travel one step, where the step is given as a
/// share of the whole range. With `step` set the share is `step` divided by
/// the size of the range, and the position reached is rounded to a whole
/// number of steps and kept between zero and one; without it the share is
/// [`crate::knob::DRAG_STEP_BITS`] and nothing is rounded.
#[derive(Clone, Copy, Debug, PartialEq, Eq, Structural)]
pub struct Drag {
    /// The travel counts [`crate::knob::KNOB_FINE_DRAG_RATIO_BITS`] only.
    pub fine: bool,
    /// The step of the knob, in units of the value.
    pub step: Option<Binary32>,
}

/// What is to be done about the value in a frame.
#[derive(Clone, Copy, Debug, PartialEq, Eq, Structural)]
pub enum Action {
    /// Nothing.
    Keep,
    /// Give the caller this value, and mark the frame as one of change.
    Reset(Binary32),
    /// Move the value by the pointer's travel, then let [`Knob::commit`]
    /// decide on what comes out.
    Drag(Drag),
}

impl Knob {
    /// The state of the knob after `frame`. A disabled knob is `Disabled`
    /// whatever happens. Else a double click and letting go both leave the
    /// knob at rest, and only then does a held pointer make it `Dragging`.
    pub open spec fn state_after(self, frame: Frame) -> Interaction {
        if !self.enabled {
            Interaction::Disabled
        } else if frame.double_clicked || frame.released() {
            Interaction::Idle
        } else if frame.dragged {
            Interaction::Dragging
        } else {
            Interaction::Idle
        }
    }

    /// What `frame` asks for. A disabled knob keeps its value. Else a double
    /// click comes first and shuts out the drag of the same frame: it sets
    /// the neutral value where there is one that differs from the value
    /// shown. Else a held pointer drags.
    pub open spec fn action(self, frame: Frame) -> Action {
        if !self.enabled {
            Action::Keep
        } else if frame.double_clicked {
            match self.neutral {
                Some(neutral) if !neutral@.num_eq(self.value@) => Action::Reset(neutral),
                _ => Action::Keep,
            }
        } else if frame.dragged {
            Action::Drag(Drag { fine: frame.fine(), step: self.step })
        } else {
            Action::Keep
        }
    }

    /// What becomes of a value that a drag arrived at: it is given to the
    /// caller if the knob is enabled and the value differs from the one
    /// shown, and dropped otherwise.
    pub open spec fn committed(self, candidate: Binary32) -> Option<Binary32> {
        if self.enabled && !candidate@.num_eq(self.value@) {
            Some(candidate)
        } else {
            None
        }
    }

    /// The state of the knob after `frame`.
    pub fn interaction(&self, frame: &Frame) -> (state: Interaction)
        ensures
            state == self.state_after(*frame),
    {
        if !self.enabled {
            Interaction::Disabled
        } else if frame.double_clicked || frame.drag_stopped || frame.lost_focus {
            Interaction::Idle
        } else if frame.dragged {
            Interaction::Dragging
        } else {
            Interaction::Idle
        }
    }

    /// What is to be done about the value in `frame`.
    pub fn act(&self, frame: &Frame) -> (action: Action)
        ensures
            action == self.action(*frame),
    {
        if !self.enabled {
            Action::Keep
        } else if frame.double_clicked {
            match self.neutral {
                Some(neutral) => {
                    if neutral.num_ne(self.value) {
                        Action::Reset(neutral)
                    } else {
                        Action::Keep
                    }
                },
                None => Action::Keep,
            }
        } else if frame.dragged {
            Action::Drag(Drag { fine: frame.ctrl || frame.shift || frame.alt, step: self.step })
        } else {
            Action::Keep
        }
    }

    /// Whether the value that a drag arrived at is given to the caller:
    /// `Some` of it if so.
    pub fn commit(&self, candidate: Binary32) -> (change: Option<Binary32>)
        ensures
            change == self.committed(candidate),
    {
        if self.enabled && candidate.num_ne(self.value) {
            Some(candidate)
        } else {
            None
        }
    }
}

/// Whether the caller is to be told that the user let go of the knob: in the
/// frame in which the pointer is released after a drag or the focus is lost,
/// and in no other.
pub fn release_due(frame: &Frame) -> (due: bool)
    ensures
        due == frame.released(),
{
    frame.drag_stopped || frame.lost_focus
}

/// A disabled knob never changes its value: whatever the frame reports it
/// asks for nothing, and whatever a drag might have come to is dropped.
pub proof fn lemma_disabled_knob_is_inert(knob: Knob, frame: Frame, candidate: Binary32)
    requires
        !knob.enabled,
    ensures
        knob.action(frame) == Action::Keep,
        knob.committed(candidate) is None,
        knob.state_after(frame) == Interaction::Disabled,
{
}

/// A double click and a drag never act in the same frame: where an enabled
/// knob is double-clicked it comes to rest and does not drag, however the
/// pointer is held.
pub proof fn lemma_double_click_shuts_out_drag(knob: Knob, frame: Frame)
    requires
        frame.double_clicked,
    ensures
        !(knob.action(frame) is Drag),
        knob.state_after(frame) != Interaction::Dragging,
{
}

/// A double click resets once: on a knob that shows another value than its
/// neutral one it sets the neutral value, and on the knob that shows the
/// neutral value it does nothing more.
pub proof fn lemma_neutral_reset(knob: Knob, frame: Frame, neutral: Binary32)
    requires
        knob.enabled,
        frame.double_clicked,
        knob.neutral == Some(neutral),
        neutral@ !is Nan,
    ensures
        !neutral@.num_eq(knob.value@) ==> knob.action(frame) == Action::Reset(neutral),
        (Knob { value: neutral, ..knob }).action(frame) == Action::Keep,
{
}

/// A value is only ever changed to another one: what a frame sets, and what
/// a drag commits, differs from the value shown.
pub proof fn lemma_changes_differ(knob: Knob, frame: Frame, candidate: Binary32)
    ensures
        knob.action(frame) matches Action::Reset(value) ==> !value@.num_eq(knob.value@),
        knob.committed(candidate) matches Some(value) ==> !value@.num_eq(knob.value@),
{
}

} // verus!
