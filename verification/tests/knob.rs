use egui::{lerp, remap, remap_clamp};
use fancy_knob::binary32::Binary32;
use fancy_knob::interaction::{release_due, Action, Drag, Frame, Interaction};
use fancy_knob::knob::{
    Knob, DRAG_STEP_BITS, FONT_SIZE_BITS, KNOB_FINE_DRAG_RATIO_BITS, LABEL_OFFSET_BITS, SIZE_BITS,
    STROKE_WIDTH_BITS,
};
use fancy_knob::normalise::{
    normalised_from_value, straddle_side, value_from_normalised, value_side, KnobSpec, LogBound,
    Magnitude, Side, Step, ZeroCutoff, INF_RANGE_MAGNITUDE_BITS,
};
use fancy_knob::range::ValueRange;
use fancy_knob::style::{KnobStyle, LabelPosition, Rgba8};

fn b(x: f32) -> Binary32 {
    Binary32::from_bits(x.to_bits())
}

fn f(x: Binary32) -> f32 {
    f32::from_bits(x.to_bits())
}

fn range(min: f32, max: f32) -> ValueRange {
    ValueRange::new(b(min), b(max))
}

fn knob(value: f32, min: f32, max: f32) -> Knob {
    Knob::new(b(value), range(min, max), KnobStyle::Wiper)
}

fn quiet() -> Frame {
    Frame {
        double_clicked: false,
        dragged: false,
        drag_stopped: false,
        lost_focus: false,
        ctrl: false,
        shift: false,
        alt: false,
    }
}

fn dragging() -> Frame {
    Frame { dragged: true, ..quiet() }
}

fn double_click() -> Frame {
    Frame { double_clicked: true, ..quiet() }
}

fn decades() -> f32 {
    f32::from_bits(INF_RANGE_MAGNITUDE_BITS)
}

fn log_bound(bound: LogBound) -> f32 {
    match bound {
        LogBound::Log10(x) => f(x).log10(),
        LogBound::DecadesBelow(x) => f(x).log10() - decades(),
        LogBound::DecadesAbove(x) => f(x).log10() + decades(),
        LogBound::Decades => decades(),
    }
}

fn magnitude(m: Magnitude) -> f32 {
    match m {
        Magnitude::Decades => decades(),
        Magnitude::AbsLog10(x) => f(x).log10().abs(),
    }
}

fn cutoff_position(cutoff: ZeroCutoff) -> f32 {
    let below = magnitude(cutoff.below);
    let above = magnitude(cutoff.above);
    below / (below + above)
}

fn to_normalised(value: f32, range: ValueRange, spec: &KnobSpec) -> f32 {
    match normalised_from_value(b(value), range, spec) {
        Step::Done(position) => f(position),
        Step::Reflect(next) => 1.0 - to_normalised(value, next, spec),
        Step::Negate(next) => to_normalised(f(b(value).neg()), next, spec),
        Step::LogSpace(span) => {
            remap(value.log10(), log_bound(span.lower)..=log_bound(span.upper), 0.0..=1.0)
        }
        Step::Straddle(cutoff) => {
            let zero = cutoff_position(cutoff);
            match value_side(b(value), range) {
                Side::Negative(side) => remap(to_normalised(value, side, spec), 0.0..=1.0, 0.0..=zero),
                Side::Positive(side) => remap(to_normalised(value, side, spec), 0.0..=1.0, zero..=1.0),
            }
        }
        Step::Linear => remap_clamp(value, f(range.min)..=f(range.max), 0.0..=1.0),
    }
}

fn from_normalised(position: f32, range: ValueRange, spec: &KnobSpec) -> f32 {
    match value_from_normalised(b(position), range, spec) {
        Step::Done(value) => f(value),
        Step::Reflect(next) => from_normalised(1.0 - position, next, spec),
        Step::Negate(next) => f(b(from_normalised(position, next, spec)).neg()),
        Step::LogSpace(span) => {
            let log = lerp(log_bound(span.lower)..=log_bound(span.upper), position);
            10f32.powf(log)
        }
        Step::Straddle(cutoff) => {
            let zero = cutoff_position(cutoff);
            match straddle_side(b(position), b(zero), range) {
                Side::Negative(side) => {
                    from_normalised(remap(position, 0.0..=zero, 0.0..=1.0), side, spec)
                }
                Side::Positive(side) => {
                    from_normalised(remap(position, zero..=1.0, 0.0..=1.0), side, spec)
                }
            }
        }
        Step::Linear => lerp(f(range.min)..=f(range.max), position.clamp(0.0, 1.0)),
    }
}

/// Where a drag over `delta_y` takes the value, before the knob decides on it.
fn dragged_to(knob: &Knob, drag: Drag, delta_y: f32) -> f32 {
    let mut delta = delta_y;
    if drag.fine {
        delta *= f32::from_bits(KNOB_FINE_DRAG_RATIO_BITS);
    }
    let step = match drag.step {
        Some(step) => f(step) / (f(knob.range.max) - f(knob.range.min)).abs(),
        None => f32::from_bits(DRAG_STEP_BITS),
    };
    let mut position = to_normalised(f(knob.value), knob.range, &knob.spec) - delta * step;
    if drag.step.is_some() {
        position = ((position / step).round() * step).clamp(0.0, 1.0);
    }
    from_normalised(position, knob.range, &knob.spec)
}

/// One frame: the values handed to the setter, in order.
fn run_frame(knob: &Knob, frame: &Frame, delta_y: f32) -> Vec<f32> {
    match knob.act(frame) {
        Action::Keep => vec![],
        Action::Reset(value) => vec![f(value)],
        Action::Drag(drag) => match knob.commit(b(dragged_to(knob, drag, delta_y))) {
            Some(value) => vec![f(value)],
            None => vec![],
        },
    }
}

#[test]
fn named_sizes_have_their_patterns() {
    assert_eq!(SIZE_BITS, 40.0f32.to_bits());
    assert_eq!(FONT_SIZE_BITS, 12.0f32.to_bits());
    assert_eq!(STROKE_WIDTH_BITS, 2.0f32.to_bits());
    assert_eq!(LABEL_OFFSET_BITS, 1.0f32.to_bits());
    assert_eq!(KNOB_FINE_DRAG_RATIO_BITS, 0.2f32.to_bits());
    assert_eq!(DRAG_STEP_BITS, 0.005f32.to_bits());
}

#[test]
fn new_knob_has_the_defaults() {
    let k = Knob::new(b(0.5), range(0.0, 1.0), KnobStyle::Dot);
    assert_eq!(f(k.value), 0.5);
    assert_eq!(k.range, range(0.0, 1.0));
    assert_eq!(k.spec, KnobSpec { logarithmic: false, smallest_finite: b(1e-6), largest_finite: b(1e6) });
    assert_eq!(f(k.size), 40.0);
    assert_eq!(f(k.font_size), 12.0);
    assert_eq!(f(k.stroke_width), 2.0);
    assert_eq!(k.knob_color, Rgba8 { r: 160, g: 160, b: 160, a: 255 });
    assert_eq!(k.knob_dragging_color, Rgba8 { r: 255, g: 255, b: 255, a: 255 });
    assert_eq!(k.line_color, Rgba8::gray());
    assert_eq!(k.text_color, Rgba8::white());
    assert_eq!(k.label, None);
    assert_eq!(k.label_position, LabelPosition::Bottom);
    assert_eq!(k.style, KnobStyle::Dot);
    assert_eq!(f(k.label_offset), 1.0);
    assert_eq!(k.step, None);
    assert_eq!(k.neutral, None);
    assert!(k.enabled);
}

#[test]
fn new_knob_clamps_the_value() {
    assert_eq!(f(knob(250.0, 0.0, 100.0).value), 100.0);
    assert_eq!(f(knob(-3.0, 0.0, 100.0).value), 0.0);
    assert_eq!(f(knob(12.0, 0.0, 100.0).value), 12.0);
    assert_eq!(f(knob(250.0, 100.0, 0.0).value), 100.0);
    assert_eq!(f(knob(-3.0, 100.0, 0.0).value), 0.0);
    assert_eq!(f(knob(7.0, 5.0, 5.0).value), 5.0);
    assert_eq!(f(knob(7.0, f32::NAN, 5.0).value), 7.0);
    assert!(f(knob(f32::NAN, 0.0, 5.0).value).is_nan());
}

#[test]
fn builders_set_their_field_and_no_other() {
    let k = knob(0.5, 0.0, 1.0)
        .with_size(b(50.0))
        .with_font_size(b(10.0))
        .with_stroke_width(b(3.0))
        .with_colors(
            Rgba8::from_rgb(60, 60, 60),
            Rgba8::from_rgb(150, 150, 150),
            Rgba8::from_rgb(151, 151, 151),
            Rgba8::from_rgb(200, 200, 200),
        )
        .with_label("Volume".to_string(), LabelPosition::Right)
        .with_label_offset(b(4.0))
        .with_step(b(0.1))
        .with_neutral(b(0.25))
        .enabled(false)
        .logarithmic(true)
        .smallest_finite(b(-1e-3))
        .largest_finite(b(-1e3));
    assert_eq!(f(k.value), 0.5);
    assert_eq!(k.range, range(0.0, 1.0));
    assert_eq!(f(k.size), 50.0);
    assert_eq!(f(k.font_size), 10.0);
    assert_eq!(f(k.stroke_width), 3.0);
    assert_eq!(k.knob_color, Rgba8 { r: 60, g: 60, b: 60, a: 255 });
    assert_eq!(k.knob_dragging_color, Rgba8 { r: 150, g: 150, b: 150, a: 255 });
    assert_eq!(k.line_color, Rgba8 { r: 151, g: 151, b: 151, a: 255 });
    assert_eq!(k.text_color, Rgba8 { r: 200, g: 200, b: 200, a: 255 });
    assert_eq!(k.label.as_deref(), Some("Volume"));
    assert_eq!(k.label_position, LabelPosition::Right);
    assert_eq!(k.style, KnobStyle::Wiper);
    assert_eq!(f(k.label_offset), 4.0);
    assert_eq!(k.step.map(f), Some(0.1));
    assert_eq!(k.neutral.map(f), Some(0.25));
    assert!(!k.enabled);
    assert!(k.spec.logarithmic);
    assert_eq!(f(k.spec.smallest_finite), 1e-3);
    assert_eq!(f(k.spec.largest_finite), 1e3);
}

#[test]
fn single_builders_leave_the_rest() {
    let k = knob(0.5, 0.0, 1.0).with_step(b(0.1));
    assert_eq!(k.step.map(f), Some(0.1));
    assert_eq!(k.neutral, None);
    assert!(k.enabled);
    assert_eq!(f(k.size), 40.0);
    let k = knob(0.5, 0.0, 1.0).logarithmic(true);
    assert!(k.spec.logarithmic);
    assert_eq!(f(k.spec.smallest_finite), 1e-6);
    assert_eq!(f(k.spec.largest_finite), 1e6);
    let k = knob(0.5, 0.0, 1.0).smallest_finite(b(1e-4));
    assert!(!k.spec.logarithmic);
    assert_eq!(f(k.spec.smallest_finite), 1e-4);
    assert_eq!(f(k.spec.largest_finite), 1e6);
}

#[test]
fn quiet_frame_keeps_the_value() {
    let k = knob(12.0, 0.0, 100.0).with_neutral(b(50.0));
    assert_eq!(k.act(&quiet()), Action::Keep);
    assert_eq!(k.interaction(&quiet()), Interaction::Idle);
    assert_eq!(run_frame(&k, &quiet(), -10.0), Vec::<f32>::new());
}

#[test]
fn drag_up_increases_value() {
    let k = knob(20.0, 0.0, 100.0);
    assert_eq!(k.act(&dragging()), Action::Drag(Drag { fine: false, step: None }));
    assert_eq!(k.interaction(&dragging()), Interaction::Dragging);
    let set = run_frame(&k, &dragging(), -10.0);
    assert_eq!(set.len(), 1);
    assert!(set[0] >= 20.0);
    // ten units of travel at five thousandths of the range each
    assert!((set[0] - 25.0).abs() < 1e-4);
}

#[test]
fn drag_down_decreases_value() {
    let k = knob(20.0, 0.0, 100.0);
    let set = run_frame(&k, &dragging(), 10.0);
    assert_eq!(set.len(), 1);
    assert!((set[0] - 15.0).abs() < 1e-4);
}

#[test]
fn drag_up_from_the_start_of_the_range() {
    let k = knob(0.0, 0.0, 100.0);
    let set = run_frame(&k, &dragging(), -10.0);
    assert_eq!(set.len(), 1);
    assert!(set[0] >= 0.0);
    assert!((set[0] - 5.0).abs() < 1e-5);
}

#[test]
fn drag_stops_at_the_ends_of_the_range() {
    let k = knob(99.0, 0.0, 100.0);
    assert_eq!(run_frame(&k, &dragging(), -1000.0), vec![100.0]);
    let k = knob(1.0, 0.0, 100.0);
    assert_eq!(run_frame(&k, &dragging(), 1000.0), vec![0.0]);
    // already at the end: nothing changes, so nothing is set
    let k = knob(100.0, 0.0, 100.0);
    assert_eq!(run_frame(&k, &dragging(), -10.0), Vec::<f32>::new());
}

#[test]
fn drag_without_travel_sets_nothing() {
    let k = knob(50.0, 0.0, 100.0);
    assert_eq!(run_frame(&k, &dragging(), 0.0), Vec::<f32>::new());
}

#[test]
fn drag_up_decreases_value_on_an_inverted_range() {
    let k = knob(20.0, 100.0, 0.0);
    let set = run_frame(&k, &dragging(), -10.0);
    assert_eq!(set.len(), 1);
    assert!((set[0] - 15.0).abs() < 1e-4);
}

#[test]
fn fine_drag_moves_a_fifth() {
    let k = knob(20.0, 0.0, 100.0);
    for frame in [
        Frame { ctrl: true, ..dragging() },
        Frame { shift: true, ..dragging() },
        Frame { alt: true, ..dragging() },
        Frame { ctrl: true, shift: true, alt: true, ..dragging() },
    ] {
        assert_eq!(k.act(&frame), Action::Drag(Drag { fine: true, step: None }));
        let set = run_frame(&k, &frame, -10.0);
        assert_eq!(set.len(), 1);
        assert!((set[0] - 21.0).abs() < 1e-4);
    }
}

#[test]
fn step_quantization() {
    let k = knob(0.0, 0.0, 100.0).with_step(b(10.0));
    assert_eq!(k.act(&dragging()), Action::Drag(Drag { fine: false, step: Some(b(10.0)) }));
    // a step is a tenth of the range, so this travel arrives at position 0.53
    assert_eq!(run_frame(&k, &dragging(), -5.3), vec![50.0]);
    // six tenths have no exact pattern, so the sixth step is met only nearly
    let set = run_frame(&k, &dragging(), -5.6);
    assert_eq!(set.len(), 1);
    assert!((set[0] - 60.0).abs() < 1e-4);
    // less than half a step: the value stays, and nothing is set
    assert_eq!(run_frame(&k, &dragging(), -0.4), Vec::<f32>::new());
    // beyond the range: the last step of the range
    assert_eq!(run_frame(&k, &dragging(), -50.0), vec![100.0]);
}

#[test]
fn neutral_reset() {
    let frame = double_click();
    let k = knob(12.0, 0.0, 100.0).with_neutral(b(50.0));
    assert_eq!(k.act(&frame), Action::Reset(b(50.0)));
    assert_eq!(k.interaction(&frame), Interaction::Idle);
    assert_eq!(run_frame(&k, &frame, 0.0), vec![50.0]);
    let k = knob(50.0, 0.0, 100.0).with_neutral(b(50.0));
    assert_eq!(k.act(&frame), Action::Keep);
    assert_eq!(run_frame(&k, &frame, 0.0), Vec::<f32>::new());
}

#[test]
fn double_click_without_neutral_does_nothing() {
    let k = knob(12.0, 0.0, 100.0);
    assert_eq!(k.act(&double_click()), Action::Keep);
}

#[test]
fn neutral_is_compared_as_a_number() {
    let k = knob(0.0, -1.0, 1.0).with_neutral(b(-0.0));
    assert_eq!(k.act(&double_click()), Action::Keep);
    let k = knob(0.5, -1.0, 1.0).with_neutral(b(f32::NAN));
    assert!(matches!(k.act(&double_click()), Action::Reset(v) if v.is_nan()));
}

#[test]
fn neutral_outside_the_range_is_set_as_it_is() {
    let k = knob(12.0, 0.0, 100.0).with_neutral(b(500.0));
    assert_eq!(run_frame(&k, &double_click(), 0.0), vec![500.0]);
}

#[test]
fn double_click_comes_before_drag() {
    let frame = Frame { double_clicked: true, dragged: true, ..quiet() };
    let k = knob(12.0, 0.0, 100.0).with_neutral(b(50.0));
    assert_eq!(run_frame(&k, &frame, -10.0), vec![50.0]);
    assert_eq!(k.interaction(&frame), Interaction::Idle);
    let k = knob(50.0, 0.0, 100.0).with_neutral(b(50.0));
    assert_eq!(run_frame(&k, &frame, -10.0), Vec::<f32>::new());
    let k = knob(50.0, 0.0, 100.0);
    assert_eq!(run_frame(&k, &frame, -10.0), Vec::<f32>::new());
}

#[test]
fn disabled_widget() {
    let k = knob(12.0, 0.0, 100.0).with_neutral(b(50.0)).with_step(b(10.0)).enabled(false);
    for double_clicked in [false, true] {
        for dragged in [false, true] {
            for drag_stopped in [false, true] {
                for lost_focus in [false, true] {
                    for ctrl in [false, true] {
                        let frame = Frame {
                            double_clicked,
                            dragged,
                            drag_stopped,
                            lost_focus,
                            ctrl,
                            shift: false,
                            alt: ctrl,
                        };
                        assert_eq!(k.act(&frame), Action::Keep);
                        assert_eq!(k.interaction(&frame), Interaction::Disabled);
                        for delta in [-1000.0, -10.0, 0.0, 10.0, 1000.0] {
                            assert_eq!(run_frame(&k, &frame, delta), Vec::<f32>::new());
                        }
                    }
                }
            }
        }
    }
    for candidate in [0.0, 12.0, 50.0, 100.0, f32::NAN] {
        assert_eq!(k.commit(b(candidate)), None);
    }
}

#[test]
fn commit_gives_only_what_differs() {
    let k = knob(12.0, 0.0, 100.0);
    assert_eq!(k.commit(b(13.0)), Some(b(13.0)));
    assert_eq!(k.commit(b(12.0)), None);
    let k = knob(0.0, -1.0, 1.0);
    assert_eq!(k.commit(b(-0.0)), None);
    assert!(matches!(k.commit(b(f32::NAN)), Some(v) if v.is_nan()));
}

#[test]
fn states_follow_the_frame() {
    let k = knob(12.0, 0.0, 100.0);
    assert_eq!(k.interaction(&quiet()), Interaction::Idle);
    assert_eq!(k.interaction(&dragging()), Interaction::Dragging);
    assert_eq!(k.interaction(&Frame { drag_stopped: true, ..quiet() }), Interaction::Idle);
    assert_eq!(k.interaction(&Frame { drag_stopped: true, ..dragging() }), Interaction::Idle);
    assert_eq!(k.interaction(&Frame { lost_focus: true, ..dragging() }), Interaction::Idle);
    assert_eq!(k.interaction(&Frame { double_clicked: true, ..dragging() }), Interaction::Idle);
    assert_eq!(k.enabled(false).interaction(&dragging()), Interaction::Disabled);
}

#[test]
fn release_is_due_on_stop_and_on_focus_loss_only() {
    assert!(!release_due(&quiet()));
    assert!(!release_due(&dragging()));
    assert!(!release_due(&double_click()));
    assert!(!release_due(&Frame { ctrl: true, shift: true, alt: true, ..dragging() }));
    assert!(release_due(&Frame { drag_stopped: true, ..quiet() }));
    assert!(release_due(&Frame { lost_focus: true, ..quiet() }));
    assert!(release_due(&Frame { drag_stopped: true, lost_focus: true, ..dragging() }));
}

#[test]
fn drag_across_zero_on_a_logarithmic_range() {
    let k = knob(0.25, -10.0, 10.0).logarithmic(true);
    // a small positive value lies above the middle of the turn, so dragging
    // up makes it larger and dragging down brings it towards zero
    let up = run_frame(&k, &dragging(), -10.0);
    assert_eq!(up.len(), 1);
    assert!(up[0] > 0.25 && up[0] < 10.0);
    let down = run_frame(&k, &dragging(), 10.0);
    assert_eq!(down.len(), 1);
    assert!(down[0] > 0.0 && down[0] < 0.25);
}

#[test]
fn logarithmic_drag_moves_along_the_decades() {
    let k = knob(10.0, 1.0, 1000.0).logarithmic(true);
    // a third of the way up; a hundred units of travel are half the turn
    let set = run_frame(&k, &dragging(), -100.0);
    assert_eq!(set.len(), 1);
    assert!((set[0] - 316.22777).abs() < 0.1);
}
