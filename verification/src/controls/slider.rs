use vstd::prelude::*;

use crate::colors::{shade, Adjust, Palette, Shade};
use crate::controls::button::PointerEvent;

verus! {

/// What the pointer is doing to a slider.
#[derive(Clone, Copy, Debug, PartialEq, Eq, Structural)]
pub enum DragType {
    /// Nothing.
    Idle,
    /// Dragging the slider body to set the value.
    Dragging,
    /// Holding the decrement button.
    HoldDecrement,
    /// Holding the increment button.
    HoldIncrement,
}

/// The part of a slider that receives a pointer event.
#[derive(Clone, Copy, Debug, PartialEq, Eq, Structural)]
pub enum SliderPart {
    /// The slider body.
    Body,
    /// An arrow button; `increment` is true when its step is positive.
    Button { increment: bool },
}

/// Which value change a slider reports to its change callback.
#[derive(Clone, Copy, Debug, PartialEq, Eq, Structural)]
pub enum SliderChange {
    /// None.
    Nothing,
    /// The value under the pointer, measured from the drag offset.
    DragValue,
    /// The current value plus the button's step.
    StepValue,
}

/// What a pointer event does to a slider.
#[derive(Clone, Copy, Debug, PartialEq, Eq, Structural)]
pub struct SliderStep {
    /// The new drag type, if it is set; setting it also records the current value as the
    /// drag offset.
    pub drag: Option<DragType>,
    /// The value change reported to the change callback.
    pub change: SliderChange,
    /// Whether the event stops propagating to the part's ancestors.
    pub stop_propagation: bool,
}

/// The drag type that a slider button sets while held.
pub open spec fn spec_hold_type(increment: bool) -> DragType {
    if increment {
        DragType::HoldIncrement
    } else {
        DragType::HoldDecrement
    }
}

pub open spec fn slider_step(drag: Option<DragType>, change: SliderChange, stop: bool) -> SliderStep {
    SliderStep { drag, change, stop_propagation: stop }
}

/// A pointer event on a slider that may be disabled: as on an enabled slider, except that a
/// disabled slider reports no value change.
pub open spec fn spec_slider_event(state: DragType, part: SliderPart, ev: PointerEvent, disabled: bool) -> SliderStep {
    let r = spec_enabled_slider_event(state, part, ev);
    if disabled {
        slider_step(r.drag, SliderChange::Nothing, r.stop_propagation)
    } else {
        r
    }
}

/// A pointer event on an enabled slider.
pub open spec fn spec_enabled_slider_event(state: DragType, part: SliderPart, ev: PointerEvent) -> SliderStep {
    let nothing = slider_step(None, SliderChange::Nothing, false);
    match part {
        SliderPart::Body => match ev {
            PointerEvent::DragStart => slider_step(Some(DragType::Dragging), SliderChange::Nothing, true),
            PointerEvent::DragEnd => if state == DragType::Dragging {
                slider_step(Some(DragType::Idle), SliderChange::Nothing, false)
            } else {
                nothing
            },
            PointerEvent::Drag => if state == DragType::Dragging {
                slider_step(None, SliderChange::DragValue, false)
            } else {
                nothing
            },
            _ => nothing,
        },
        SliderPart::Button { increment } => {
            let hold = spec_hold_type(increment);
            match ev {
                PointerEvent::DragStart => slider_step(Some(hold), SliderChange::StepValue, true),
                PointerEvent::DragEnd => slider_step(Some(DragType::Idle), SliderChange::Nothing, true),
                PointerEvent::DragEnter => if state == DragType::Idle {
                    slider_step(Some(hold), SliderChange::Nothing, true)
                } else {
                    nothing
                },
                PointerEvent::DragLeave => if state == hold {
                    slider_step(Some(DragType::Idle), SliderChange::Nothing, true)
                } else {
                    nothing
                },
                _ => nothing,
            }
        },
    }
}

fn hold_type(increment: bool) -> (r: DragType)
    ensures
        r == spec_hold_type(increment),
{
    if increment {
        DragType::HoldIncrement
    } else {
        DragType::HoldDecrement
    }
}

fn same_drag(a: DragType, b: DragType) -> (r: bool)
    ensures
        r == (a == b),
{
    match (a, b) {
        (DragType::Idle, DragType::Idle) => true,
        (DragType::Dragging, DragType::Dragging) => true,
        (DragType::HoldDecrement, DragType::HoldDecrement) => true,
        (DragType::HoldIncrement, DragType::HoldIncrement) => true,
        _ => false,
    }
}

/// A pointer event on a slider whose drag state is `state`. Dragging the body reports the
/// dragged value; pressing a button reports one step and holds it until the drag ends or
/// leaves that button; a drag that enters a button while nothing else is going on holds it.
/// A disabled slider follows the pointer the same way but reports no value change.
pub fn slider_event(state: DragType, part: SliderPart, ev: PointerEvent, disabled: bool) -> (r: SliderStep)
    ensures
        r == spec_slider_event(state, part, ev, disabled),
        disabled ==> r.change == SliderChange::Nothing,
{
    let r = enabled_slider_event(state, part, ev);
    if disabled {
        SliderStep { drag: r.drag, change: SliderChange::Nothing, stop_propagation: r.stop_propagation }
    } else {
        r
    }
}

fn enabled_slider_event(state: DragType, part: SliderPart, ev: PointerEvent) -> (r: SliderStep)
    ensures
        r == spec_enabled_slider_event(state, part, ev),
{
    let nothing = SliderStep { drag: None, change: SliderChange::Nothing, stop_propagation: false };
    match part {
        SliderPart::Body => match ev {
            PointerEvent::DragStart => SliderStep {
                drag: Some(DragType::Dragging),
                change: SliderChange::Nothing,
                stop_propagation: true,
            },
            PointerEvent::DragEnd => if same_drag(state, DragType::Dragging) {
                SliderStep { drag: Some(DragType::Idle), change: SliderChange::Nothing, stop_propagation: false }
            } else {
                nothing
            },
            PointerEvent::Drag => if same_drag(state, DragType::Dragging) {
                SliderStep { drag: None, change: SliderChange::DragValue, stop_propagation: false }
            } else {
                nothing
            },
            _ => nothing,
        },
        SliderPart::Button { increment } => {
            let hold = hold_type(increment);
            match ev {
                PointerEvent::DragStart => SliderStep {
                    drag: Some(hold),
                    change: SliderChange::StepValue,
                    stop_propagation: true,
                },
                PointerEvent::DragEnd => SliderStep {
                    drag: Some(DragType::Idle),
                    change: SliderChange::Nothing,
                    stop_propagation: true,
                },
                PointerEvent::DragEnter => if same_drag(state, DragType::Idle) {
                    SliderStep { drag: Some(hold), change: SliderChange::Nothing, stop_propagation: true }
                } else {
                    nothing
                },
                PointerEvent::DragLeave => if same_drag(state, hold) {
                    SliderStep { drag: Some(DragType::Idle), change: SliderChange::Nothing, stop_propagation: true }
                } else {
                    nothing
                },
                _ => nothing,
            }
        },
    }
}

/// The drag state after a slider event.
pub open spec fn drag_after(state: DragType, r: SliderStep) -> DragType {
    match r.drag {
        Some(d) => d,
        None => state,
    }
}

/// A drag that enters a slider button never interrupts a drag of the body or a hold of the
/// other button, and leaving a button only ends that button's own hold.
pub proof fn lemma_button_enter_leave_respect_other_drags(state: DragType, increment: bool, disabled: bool)
    ensures
        state != DragType::Idle ==> drag_after(
            state,
            spec_slider_event(state, SliderPart::Button { increment }, PointerEvent::DragEnter, disabled),
        ) == state,
        state != spec_hold_type(increment) ==> drag_after(
            state,
            spec_slider_event(state, SliderPart::Button { increment }, PointerEvent::DragLeave, disabled),
        ) == state,
{
}

/// A disabled slider never reports a value change, whatever the event.
pub proof fn lemma_disabled_slider_reports_nothing(state: DragType, part: SliderPart, ev: PointerEvent)
    ensures
        spec_slider_event(state, part, ev, true).change == SliderChange::Nothing,
{
}

/// A slider button reports a step only when it is pressed: no other event on a button (a
/// move, an enter, a leave, a release) reports a step or a dragged value, so a press with
/// any moves and a release reports exactly one step.
pub proof fn lemma_button_steps_only_on_press(state: DragType, increment: bool, ev: PointerEvent, disabled: bool)
    ensures
        ev != PointerEvent::DragStart ==> spec_slider_event(
            state,
            SliderPart::Button { increment },
            ev,
            disabled,
        ).change == SliderChange::Nothing,
        spec_slider_event(state, SliderPart::Button { increment }, ev, disabled).change
            != SliderChange::DragValue,
{
}

/// The slider body never reports a step, and reports a dragged value only for a move of an
/// enabled slider whose body is being dragged.
pub proof fn lemma_body_reports_only_drags(state: DragType, ev: PointerEvent, disabled: bool)
    ensures
        spec_slider_event(state, SliderPart::Body, ev, disabled).change != SliderChange::StepValue,
        spec_slider_event(state, SliderPart::Body, ev, disabled).change == SliderChange::DragValue
            <==> (ev == PointerEvent::Drag && state == DragType::Dragging && !disabled),
{
}

/// Pressing a button of an enabled slider and releasing it reports exactly one step and
/// leaves the slider idle.
pub proof fn lemma_button_press_release(state: DragType, increment: bool)
    ensures
        ({
            let press = spec_slider_event(state, SliderPart::Button { increment }, PointerEvent::DragStart, false);
            let s1 = drag_after(state, press);
            let release = spec_slider_event(s1, SliderPart::Button { increment }, PointerEvent::DragEnd, false);
            &&& press.change == SliderChange::StepValue
            &&& s1 == spec_hold_type(increment)
            &&& release.change == SliderChange::Nothing
            &&& drag_after(s1, release) == DragType::Idle
        }),
{
}

/// The sign of a slider button's step, as the comparisons of a float with zero see it.
#[derive(Clone, Copy, Debug, PartialEq, Eq, Structural)]
pub enum StepSign {
    Negative,
    Zero,
    Positive,
    /// Not a number: neither below, above nor equal to zero.
    Unordered,
}

pub open spec fn spec_slider_button_shade(
    state: DragType,
    sign: StepSign,
    slider_hovering: bool,
    button_hovering: bool,
) -> Shade {
    let hovering = slider_hovering && sign != StepSign::Zero;
    if state == DragType::HoldIncrement && sign == StepSign::Positive {
        shade(Palette::Foreground, Adjust::Base)
    } else if state == DragType::HoldDecrement && sign == StepSign::Negative {
        shade(Palette::Foreground, Adjust::Base)
    } else if state == DragType::Dragging {
        shade(Palette::Transparent, Adjust::Base)
    } else if hovering && button_hovering {
        shade(Palette::U4, Adjust::Lighter(100))
    } else if hovering {
        shade(Palette::U4, Adjust::Base)
    } else {
        shade(Palette::Transparent, Adjust::Base)
    }
}

/// The color of a slider button's arrow: bright while the button is held, hidden while the
/// body is dragged, shown while the slider is hovered (brighter over the button itself), and
/// hidden otherwise. A button with a zero step never shows on hover.
pub fn slider_button_shade(state: DragType, sign: StepSign, slider_hovering: bool, button_hovering: bool) -> (r: Shade)
    ensures
        r == spec_slider_button_shade(state, sign, slider_hovering, button_hovering),
{
    let nonzero = match sign {
        StepSign::Zero => false,
        _ => true,
    };
    let hovering = slider_hovering && nonzero;
    let positive = match sign {
        StepSign::Positive => true,
        _ => false,
    };
    let negative = match sign {
        StepSign::Negative => true,
        _ => false,
    };
    if same_drag(state, DragType::HoldIncrement) && positive {
        Shade::base(Palette::Foreground)
    } else if same_drag(state, DragType::HoldDecrement) && negative {
        Shade::base(Palette::Foreground)
    } else if same_drag(state, DragType::Dragging) {
        Shade::base(Palette::Transparent)
    } else if hovering && button_hovering {
        Shade::lighter(Palette::U4, 100)
    } else if hovering {
        Shade::base(Palette::U4)
    } else {
        Shade::base(Palette::Transparent)
    }
}

} // verus!
