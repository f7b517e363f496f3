use vstd::prelude::*;

use crate::colors::{shade, Adjust, Palette, Shade};
use crate::controls::button::PointerEvent;

verus! {

/// The direction of the splitter. Represents the direction of the bar, not the items being split.
#[derive(Clone, Copy, Debug, PartialEq, Eq, Structural)]
pub enum SplitterDirection {
    /// The splitter bar runs horizontally, and splits the items above and below it.
    Horizontal,
    /// The splitter bar runs vertically, and splits the items to the left and right of it.
    Vertical,
}

impl Default for SplitterDirection {
    fn default() -> (r: Self)
        ensures
            r == SplitterDirection::Vertical,
    {
        SplitterDirection::Vertical
    }
}

/// How a splitter turns a drag distance into a new split value.
#[derive(Clone, Copy, Debug, PartialEq, Eq, Structural)]
pub enum SplitDelta {
    /// The drag offset minus the vertical distance.
    OffsetMinusY,
    /// The horizontal distance plus the drag offset.
    XPlusOffset,
}

/// What a pointer event on a splitter does.
#[derive(Clone, Copy, Debug, PartialEq, Eq, Structural)]
pub struct SplitterStep {
    /// The new dragging flag, if it is set; setting it also records the current split value
    /// as the drag offset.
    pub dragging: Option<bool>,
    /// The new split value reported to the change callback, if any.
    pub report: Option<SplitDelta>,
}

pub open spec fn spec_splitter_event(
    direction: SplitterDirection,
    dragging: bool,
    ev: PointerEvent,
    has_on_change: bool,
) -> SplitterStep {
    match ev {
        PointerEvent::DragStart => SplitterStep { dragging: Some(true), report: None },
        PointerEvent::DragEnd => SplitterStep { dragging: Some(false), report: None },
        PointerEvent::Cancel => SplitterStep { dragging: Some(false), report: None },
        PointerEvent::Drag => SplitterStep {
            dragging: None,
            report: if has_on_change && dragging {
                Some(
                    match direction {
                        SplitterDirection::Horizontal => SplitDelta::OffsetMinusY,
                        SplitterDirection::Vertical => SplitDelta::XPlusOffset,
                    },
                )
            } else {
                None
            },
        },
        _ => SplitterStep { dragging: None, report: None },
    }
}

/// A pointer event on a splitter bar: a drag starts on the bar, reports the new split value
/// while it goes on, and ends on release or cancel. A horizontal bar follows the pointer up
/// and down, a vertical bar left and right.
pub fn splitter_event(direction: SplitterDirection, dragging: bool, ev: PointerEvent, has_on_change: bool) -> (r: SplitterStep)
    ensures
        r == spec_splitter_event(direction, dragging, ev, has_on_change),
{
    match ev {
        PointerEvent::DragStart => SplitterStep { dragging: Some(true), report: None },
        PointerEvent::DragEnd => SplitterStep { dragging: Some(false), report: None },
        PointerEvent::Cancel => SplitterStep { dragging: Some(false), report: None },
        PointerEvent::Drag => SplitterStep {
            dragging: None,
            report: if has_on_change && dragging {
                Some(
                    match direction {
                        SplitterDirection::Horizontal => SplitDelta::OffsetMinusY,
                        SplitterDirection::Vertical => SplitDelta::XPlusOffset,
                    },
                )
            } else {
                None
            },
        },
        _ => SplitterStep { dragging: None, report: None },
    }
}

pub open spec fn spec_splitter_shade(dragging: bool, hovering: bool) -> Shade {
    if dragging {
        shade(Palette::U3, Adjust::Lighter(50))
    } else if hovering {
        shade(Palette::U3, Adjust::Lighter(20))
    } else {
        shade(Palette::U3, Adjust::Base)
    }
}

/// The color of the splitter's handle: lighter while hovered, lighter still while dragged.
pub fn splitter_shade(dragging: bool, hovering: bool) -> (r: Shade)
    ensures
        r == spec_splitter_shade(dragging, hovering),
{
    if dragging {
        Shade::lighter(Palette::U3, 50)
    } else if hovering {
        Shade::lighter(Palette::U3, 20)
    } else {
        Shade::base(Palette::U3)
    }
}

/// Whether the splitter is being dragged after a sequence of pointer events, starting idle.
pub open spec fn spec_dragging_after(direction: SplitterDirection, has_on_change: bool, evs: Seq<PointerEvent>) -> bool
    decreases evs.len(),
{
    if evs.len() == 0 {
        false
    } else {
        let d = spec_dragging_after(direction, has_on_change, evs.drop_last());
        match spec_splitter_event(direction, d, evs.last(), has_on_change).dragging {
            Some(x) => x,
            None => d,
        }
    }
}

/// Events that end a drag.
pub open spec fn ends_drag(ev: PointerEvent) -> bool {
    ev == PointerEvent::DragEnd || ev == PointerEvent::Cancel
}

/// Some drag has started in `evs` and no end or cancel has come after it.
pub open spec fn drag_open(evs: Seq<PointerEvent>) -> bool {
    exists|j: int|
        0 <= j < evs.len() && #[trigger] evs[j] == PointerEvent::DragStart && forall|l: int|
            j < l < evs.len() ==> !ends_drag(#[trigger] evs[l])
}

/// The splitter's dragging flag after a sequence of events is exactly whether a drag has
/// started and not ended or been cancelled since.
pub proof fn lemma_dragging_is_open_drag(direction: SplitterDirection, has_on_change: bool, evs: Seq<PointerEvent>)
    ensures
        spec_dragging_after(direction, has_on_change, evs) == drag_open(evs),
    decreases evs.len(),
{
    if evs.len() > 0 {
        let prev = evs.drop_last();
        let n = evs.len() - 1;
        let e = evs[n];
        lemma_dragging_is_open_drag(direction, has_on_change, prev);
        if e == PointerEvent::DragStart {
            assert(evs[n] == PointerEvent::DragStart);
            assert(forall|l: int| n < l < evs.len() ==> !ends_drag(#[trigger] evs[l]));
        } else if ends_drag(e) {
            assert forall|j: int|
                0 <= j < evs.len() && #[trigger] evs[j] == PointerEvent::DragStart implies !(forall|l: int|
                    j < l < evs.len() ==> !ends_drag(#[trigger] evs[l])) by {
                assert(j < n);
                assert(ends_drag(evs[n]));
            }
        } else {
            if drag_open(prev) {
                let j = choose|j: int|
                    0 <= j < prev.len() && #[trigger] prev[j] == PointerEvent::DragStart && forall|l: int|
                        j < l < prev.len() ==> !ends_drag(#[trigger] prev[l]);
                assert(evs[j] == PointerEvent::DragStart);
                assert forall|l: int| j < l < evs.len() implies !ends_drag(#[trigger] evs[l]) by {
                    if l < n {
                        assert(evs[l] == prev[l]);
                    }
                }
            }
            if drag_open(evs) {
                let j = choose|j: int|
                    0 <= j < evs.len() && #[trigger] evs[j] == PointerEvent::DragStart && forall|l: int|
                        j < l < evs.len() ==> !ends_drag(#[trigger] evs[l]);
                assert(j < n);
                assert(prev[j] == PointerEvent::DragStart);
                assert forall|l: int| j < l < prev.len() implies !ends_drag(#[trigger] prev[l]) by {
                    assert(prev[l] == evs[l]);
                }
            }
        }
    }
}

/// A splitter reports a new split value for the `k`-th event of a sequence exactly when that
/// event is a drag, the splitter has a change callback, and a drag started earlier without
/// any end or cancel in between; starting, ending and cancelling never report.
pub proof fn lemma_reports_only_within_drags(
    direction: SplitterDirection,
    has_on_change: bool,
    evs: Seq<PointerEvent>,
    k: int,
)
    requires
        0 <= k < evs.len(),
    ensures
        spec_splitter_event(
            direction,
            spec_dragging_after(direction, has_on_change, evs.take(k)),
            evs[k],
            has_on_change,
        ).report is Some <==> (evs[k] == PointerEvent::Drag && has_on_change && drag_open(evs.take(k))),
{
    lemma_dragging_is_open_drag(direction, has_on_change, evs.take(k));
}

} // verus!
