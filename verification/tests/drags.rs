use obsidian_ui::colors::{Adjust, Palette, Shade};
use obsidian_ui::controls::button::PointerEvent;
use obsidian_ui::controls::slider::{
    slider_button_shade, slider_event, DragType, SliderChange, SliderPart, SliderStep, StepSign,
};
use obsidian_ui::controls::spinbox::{spin_event, SpinDrag};
use obsidian_ui::controls::splitter::{
    splitter_event, splitter_shade, SplitDelta, SplitterDirection, SplitterStep,
};

fn step(drag: Option<DragType>, change: SliderChange, stop: bool) -> SliderStep {
    SliderStep { drag, change, stop_propagation: stop }
}

const INC: SliderPart = SliderPart::Button { increment: true };
const DEC: SliderPart = SliderPart::Button { increment: false };

#[test]
fn slider_body_drag() {
    assert_eq!(slider_event(DragType::Idle, SliderPart::Body, PointerEvent::DragStart, false), step(Some(DragType::Dragging), SliderChange::Nothing, true));
    assert_eq!(slider_event(DragType::Dragging, SliderPart::Body, PointerEvent::Drag, false), step(None, SliderChange::DragValue, false));
    assert_eq!(slider_event(DragType::Idle, SliderPart::Body, PointerEvent::Drag, false), step(None, SliderChange::Nothing, false));
    assert_eq!(slider_event(DragType::Dragging, SliderPart::Body, PointerEvent::DragEnd, false), step(Some(DragType::Idle), SliderChange::Nothing, false));
    assert_eq!(slider_event(DragType::HoldIncrement, SliderPart::Body, PointerEvent::DragEnd, false), step(None, SliderChange::Nothing, false));
    assert_eq!(slider_event(DragType::Idle, SliderPart::Body, PointerEvent::Click, false), step(None, SliderChange::Nothing, false));
}

#[test]
fn slider_buttons_hold() {
    assert_eq!(slider_event(DragType::Idle, INC, PointerEvent::DragStart, false), step(Some(DragType::HoldIncrement), SliderChange::StepValue, true));
    assert_eq!(slider_event(DragType::Idle, DEC, PointerEvent::DragStart, false), step(Some(DragType::HoldDecrement), SliderChange::StepValue, true));
    assert_eq!(slider_event(DragType::HoldIncrement, INC, PointerEvent::DragEnd, false), step(Some(DragType::Idle), SliderChange::Nothing, true));
    assert_eq!(slider_event(DragType::Idle, INC, PointerEvent::DragEnter, false), step(Some(DragType::HoldIncrement), SliderChange::Nothing, true));
    assert_eq!(slider_event(DragType::Dragging, INC, PointerEvent::DragEnter, false), step(None, SliderChange::Nothing, false));
    assert_eq!(slider_event(DragType::HoldIncrement, INC, PointerEvent::DragLeave, false), step(Some(DragType::Idle), SliderChange::Nothing, true));
    assert_eq!(slider_event(DragType::HoldDecrement, INC, PointerEvent::DragLeave, false), step(None, SliderChange::Nothing, false));
    assert_eq!(slider_event(DragType::Dragging, DEC, PointerEvent::DragLeave, false), step(None, SliderChange::Nothing, false));
}

fn sh(color: Palette, adjust: Adjust) -> Shade {
    Shade { color, adjust }
}

#[test]
fn slider_button_colors() {
    assert_eq!(slider_button_shade(DragType::HoldIncrement, StepSign::Positive, false, false), sh(Palette::Foreground, Adjust::Base));
    assert_eq!(slider_button_shade(DragType::HoldDecrement, StepSign::Negative, false, false), sh(Palette::Foreground, Adjust::Base));
    assert_eq!(slider_button_shade(DragType::HoldIncrement, StepSign::Negative, true, false), sh(Palette::U4, Adjust::Base));
    assert_eq!(slider_button_shade(DragType::Dragging, StepSign::Positive, true, true), sh(Palette::Transparent, Adjust::Base));
    assert_eq!(slider_button_shade(DragType::Idle, StepSign::Positive, true, true), sh(Palette::U4, Adjust::Lighter(100)));
    assert_eq!(slider_button_shade(DragType::Idle, StepSign::Unordered, true, false), sh(Palette::U4, Adjust::Base));
    assert_eq!(slider_button_shade(DragType::Idle, StepSign::Zero, true, true), sh(Palette::Transparent, Adjust::Base));
    assert_eq!(slider_button_shade(DragType::Idle, StepSign::Positive, false, true), sh(Palette::Transparent, Adjust::Base));
}

#[test]
fn spinbox_drag() {
    let idle = SpinDrag { dragging: false, was_dragged: false };
    let r = spin_event(idle, PointerEvent::DragStart, false, false);
    assert_eq!(r.drag, Some(SpinDrag { dragging: true, was_dragged: false }));
    assert!(r.resample_offset && r.stop_propagation && !r.report_value);
    let s1 = r.drag.unwrap();
    let r = spin_event(s1, PointerEvent::Drag, false, false);
    assert!(r.drag.is_none() && !r.report_value);
    let r = spin_event(s1, PointerEvent::Drag, true, false);
    assert_eq!(r.drag, Some(SpinDrag { dragging: true, was_dragged: true }));
    assert!(r.report_value && !r.resample_offset);
    let s2 = r.drag.unwrap();
    let r = spin_event(s2, PointerEvent::Drag, true, false);
    assert!(r.drag.is_none() && r.report_value);
    let r = spin_event(s2, PointerEvent::DragEnd, false, false);
    assert_eq!(r.drag, Some(idle));
    assert!(r.resample_offset && !r.ended_without_change);
    let r = spin_event(s1, PointerEvent::DragEnd, false, false);
    assert!(r.ended_without_change);
    let r = spin_event(idle, PointerEvent::DragEnd, false, false);
    assert!(r.drag.is_none() && !r.ended_without_change);
    let r = spin_event(idle, PointerEvent::Drag, true, false);
    assert!(!r.report_value);
}

#[test]
fn disabled_slider_reports_nothing() {
    assert_eq!(slider_event(DragType::Idle, INC, PointerEvent::DragStart, true), step(Some(DragType::HoldIncrement), SliderChange::Nothing, true));
    assert_eq!(slider_event(DragType::Idle, DEC, PointerEvent::DragStart, true), step(Some(DragType::HoldDecrement), SliderChange::Nothing, true));
    assert_eq!(slider_event(DragType::Dragging, SliderPart::Body, PointerEvent::Drag, true), step(None, SliderChange::Nothing, false));
    assert_eq!(slider_event(DragType::Idle, SliderPart::Body, PointerEvent::DragStart, true), step(Some(DragType::Dragging), SliderChange::Nothing, true));
}

#[test]
fn disabled_spinbox_reports_nothing() {
    let s1 = SpinDrag { dragging: true, was_dragged: false };
    let r = spin_event(s1, PointerEvent::Drag, true, true);
    assert_eq!(r.drag, Some(SpinDrag { dragging: true, was_dragged: true }));
    assert!(!r.report_value);
    let r = spin_event(s1, PointerEvent::Drag, true, false);
    assert!(r.report_value);
}

#[test]
fn splitter_drag() {
    assert_eq!(SplitterDirection::default(), SplitterDirection::Vertical);
    let v = SplitterDirection::Vertical;
    let h = SplitterDirection::Horizontal;
    assert_eq!(splitter_event(v, false, PointerEvent::DragStart, true), SplitterStep { dragging: Some(true), report: None });
    assert_eq!(splitter_event(v, true, PointerEvent::DragEnd, true), SplitterStep { dragging: Some(false), report: None });
    assert_eq!(splitter_event(v, true, PointerEvent::Cancel, true), SplitterStep { dragging: Some(false), report: None });
    assert_eq!(splitter_event(v, true, PointerEvent::Drag, true), SplitterStep { dragging: None, report: Some(SplitDelta::XPlusOffset) });
    assert_eq!(splitter_event(h, true, PointerEvent::Drag, true), SplitterStep { dragging: None, report: Some(SplitDelta::OffsetMinusY) });
    assert_eq!(splitter_event(h, false, PointerEvent::Drag, true), SplitterStep { dragging: None, report: None });
    assert_eq!(splitter_event(h, true, PointerEvent::Drag, false), SplitterStep { dragging: None, report: None });
    assert_eq!(splitter_event(h, true, PointerEvent::DragEnter, true), SplitterStep { dragging: None, report: None });
    assert_eq!(splitter_shade(true, false), sh(Palette::U3, Adjust::Lighter(50)));
    assert_eq!(splitter_shade(false, true), sh(Palette::U3, Adjust::Lighter(20)));
    assert_eq!(splitter_shade(false, false), sh(Palette::U3, Adjust::Base));
}
