use vstd::prelude::*;

verus! {

/// What a modal dialog shows and runs for the state of its opening and closing transition.
#[derive(Clone, Copy, Debug, PartialEq, Eq, Structural)]
pub struct DialogView {
    /// Whether the dialog (with its backdrop) is shown.
    pub shown: bool,
    /// Whether the dialog's `on_exited` callback runs.
    pub notify_exited: bool,
}

/// A dialog stays shown until its closing transition has ended, also after it was asked to
/// close; once the transition has ended the dialog is gone and its `on_exited` callback, if
/// it has one, runs.
pub fn dialog_view(exited: bool, has_on_exited: bool) -> (r: DialogView)
    ensures
        r.shown == !exited,
        r.notify_exited == (exited && has_on_exited),
{
    DialogView { shown: !exited, notify_exited: exited && has_on_exited }
}

/// A click on a dialog's backdrop runs its `on_close` callback when it has one.
pub fn dialog_backdrop_click(has_on_close: bool) -> (r: bool)
    ensures
        r == has_on_close,
{
    has_on_close
}

} // verus!
