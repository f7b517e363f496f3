use vstd::prelude::*;

use crate::controls::button::PointerEvent;

verus! {

/// The drag state of a spinbox's label; the drag offset itself is a float kept by the caller.
#[derive(Clone, Copy, Debug, PartialEq, Eq, Structural)]
pub struct SpinDrag {
    /// Whether the label is being dragged.
    pub dragging: bool,
    /// Whether the current drag has changed the value.
    pub was_dragged: bool,
}

/// What a pointer event on a spinbox's label does.
#[derive(Clone, Copy, Debug, PartialEq, Eq, Structural)]
pub struct SpinStep {
    /// The new drag state, if it is set.
    pub drag: Option<SpinDrag>,
    /// Whether setting the drag state also records the current value as the drag offset.
    pub resample_offset: bool,
    /// Whether the dragged value is reported to the change callback.
    pub report_value: bool,
    /// Whether the event stops propagating to the label's ancestors.
    pub stop_propagation: bool,
    /// Whether a drag ended without ever changing the value (a plain click).
    pub ended_without_change: bool,
}

pub open spec fn spin_step(drag: Option<SpinDrag>, resample: bool, report: bool, stop: bool, click: bool) -> SpinStep {
    SpinStep {
        drag,
        resample_offset: resample,
        report_value: report,
        stop_propagation: stop,
        ended_without_change: click,
    }
}

/// `value_changed` says whether the value computed from the drag distance, rounded to the
/// spinbox's precision, differs from the current value. A disabled spinbox follows the drag
/// as an enabled one does but reports no value.
pub open spec fn spec_spin_event(state: SpinDrag, ev: PointerEvent, value_changed: bool, disabled: bool) -> SpinStep {
    let r = spec_enabled_spin_event(state, ev, value_changed);
    if disabled {
        spin_step(r.drag, r.resample_offset, false, r.stop_propagation, r.ended_without_change)
    } else {
        r
    }
}

/// A pointer event on the label of an enabled spinbox.
pub open spec fn spec_enabled_spin_event(state: SpinDrag, ev: PointerEvent, value_changed: bool) -> SpinStep {
    let nothing = spin_step(None, false, false, false, false);
    match ev {
        PointerEvent::DragStart => spin_step(
            Some(SpinDrag { dragging: true, was_dragged: false }),
            true,
            false,
            true,
            false,
        ),
        PointerEvent::DragEnd => if state.dragging {
            spin_step(
                Some(SpinDrag { dragging: false, was_dragged: false }),
                true,
                false,
                false,
                !state.was_dragged,
            )
        } else {
            nothing
        },
        PointerEvent::Drag => if state.dragging && value_changed {
            spin_step(
                if !state.was_dragged {
                    Some(SpinDrag { dragging: state.dragging, was_dragged: true })
                } else {
                    None
                },
                false,
                true,
                false,
                false,
            )
        } else {
            nothing
        },
        _ => nothing,
    }
}

/// A pointer event on the label of a spinbox whose drag state is `state`: a drag starts on
/// the label, reports each change of the rounded value while it goes on, remembers that it
/// changed the value, and ends on release. A disabled spinbox reports no value.
pub fn spin_event(state: SpinDrag, ev: PointerEvent, value_changed: bool, disabled: bool) -> (r: SpinStep)
    ensures
        r == spec_spin_event(state, ev, value_changed, disabled),
        disabled ==> !r.report_value,
{
    let r = enabled_spin_event(state, ev, value_changed);
    if disabled {
        SpinStep {
            drag: r.drag,
            resample_offset: r.resample_offset,
            report_value: false,
            stop_propagation: r.stop_propagation,
            ended_without_change: r.ended_without_change,
        }
    } else {
        r
    }
}

fn enabled_spin_event(state: SpinDrag, ev: PointerEvent, value_changed: bool) -> (r: SpinStep)
    ensures
        r == spec_enabled_spin_event(state, ev, value_changed),
{
    let nothing = SpinStep {
        drag: None,
        resample_offset: false,
        report_value: false,
        stop_propagation: false,
        ended_without_change: false,
    };
    match ev {
        PointerEvent::DragStart => SpinStep {
            drag: Some(SpinDrag { dragging: true, was_dragged: false }),
            resample_offset: true,
            report_value: false,
            stop_propagation: true,
            ended_without_change: false,
        },
        PointerEvent::DragEnd => if state.dragging {
            SpinStep {
                drag: Some(SpinDrag { dragging: false, was_dragged: false }),
                resample_offset: true,
                report_value: false,
                stop_propagation: false,
                ended_without_change: !state.was_dragged,
            }
        } else {
            nothing
        },
        PointerEvent::Drag => if state.dragging && value_changed {
            SpinStep {
                drag: if !state.was_dragged {
                    Some(SpinDrag { dragging: state.dragging, was_dragged: true })
                } else {
                    None
                },
                resample_offset: false,
                report_value: true,
                stop_propagation: false,
                ended_without_change: false,
            }
        } else {
            nothing
        },
        _ => nothing,
    }
}

pub open spec fn spin_after(state: SpinDrag, r: SpinStep) -> SpinDrag {
    match r.drag {
        Some(d) => d,
        None => state,
    }
}

/// A drag that starts on the label and ends without any change of value is a plain click;
/// one that changes the value in between is not.
pub proof fn lemma_spin_click_detection(state: SpinDrag, changed: bool, disabled: bool)
    ensures
        ({
            let s1 = spin_after(state, spec_spin_event(state, PointerEvent::DragStart, false, disabled));
            let s2 = spin_after(s1, spec_spin_event(s1, PointerEvent::Drag, changed, disabled));
            spec_spin_event(s2, PointerEvent::DragEnd, false, disabled).ended_without_change == !changed
        }),
{
}

} // verus!
