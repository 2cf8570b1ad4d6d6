//! The main window as the gateway sees it: what the host reports of it, the
//! calls the gateway asks the host to make, and what those calls do to the
//! window's visibility.

use vstd::prelude::*;

verus! {

/// One call on the main window that the host is asked to make.
#[derive(Clone, Copy, Debug, PartialEq, Eq, Structural)]
pub enum WindowOp {
    /// Make the window visible.
    Show,
    /// Give the window the input focus.
    Focus,
    /// Make the window invisible.
    Hide,
}

/// What the host reports of the main window, queried afresh for each
/// decision.
#[derive(Clone, Copy, Debug, PartialEq, Eq, Structural)]
pub enum MainWindow {
    /// There is no main window.
    Missing,
    /// The window exists; `visible` is `None` where the host could not tell
    /// whether it is shown.
    Present { visible: Option<bool> },
}

impl MainWindow {
    /// Whether the window exists.
    pub open spec fn present(self) -> bool {
        self is Present
    }

    /// Whether the window exists and is known to be shown. A window whose
    /// state the host could not tell counts as hidden.
    pub open spec fn shown(self) -> bool {
        self == (MainWindow::Present { visible: Some(true) })
    }
}

/// The calls that bring a window to the front.
pub open spec fn raise_ops() -> Seq<WindowOp> {
    seq![WindowOp::Show, WindowOp::Focus]
}

/// The calls of one toggle on a window that is shown or not.
pub open spec fn toggle_ops(shown: bool) -> Seq<WindowOp> {
    if shown {
        seq![WindowOp::Hide]
    } else {
        raise_ops()
    }
}

/// The calls that bring the main window to the front where it exists.
pub open spec fn raise_ops_for(window: MainWindow) -> Seq<WindowOp> {
    if window.present() {
        raise_ops()
    } else {
        Seq::empty()
    }
}

/// Whether a window is visible after one successful call.
pub open spec fn visible_after_op(op: WindowOp, visible: bool) -> bool {
    match op {
        WindowOp::Show => true,
        WindowOp::Hide => false,
        WindowOp::Focus => visible,
    }
}

/// Whether a window is visible after the calls `ops` succeeded in order.
pub open spec fn visible_after(ops: Seq<WindowOp>, visible: bool) -> bool
    decreases ops.len(),
{
    if ops.len() == 0 {
        visible
    } else {
        visible_after_op(ops.last(), visible_after(ops.drop_last(), visible))
    }
}

/// The name of the only window that the gateway ever addresses.
pub fn main_window_label() -> (label: &'static str)
    ensures
        label@ == "main"@,
{
    "main"
}

/// The calls that bring the main window to the front: show it and focus
/// it where it exists, nothing where it does not.
pub fn raise_main_window(window: MainWindow) -> (ops: Vec<WindowOp>)
    ensures
        ops@ == raise_ops_for(window),
{
    let mut ops: Vec<WindowOp> = Vec::new();
    match window {
        MainWindow::Missing => {},
        MainWindow::Present { .. } => {
            ops.push(WindowOp::Show);
            ops.push(WindowOp::Focus);
        },
    }
    assert(ops@ =~= raise_ops_for(window));
    ops
}

/// One toggle inverts the visibility of a window.
pub proof fn lemma_toggle_inverts(visible: bool)
    ensures
        visible_after(toggle_ops(visible), visible) == !visible,
{
    reveal_with_fuel(visible_after, 3);
    let ops = toggle_ops(visible);
    if visible {
        assert(ops.drop_last() =~= Seq::<WindowOp>::empty());
    } else {
        assert(ops.drop_last() =~= seq![WindowOp::Show]);
        assert(ops.drop_last().drop_last() =~= Seq::<WindowOp>::empty());
    }
}

/// Two toggles in immediate succession, each decided on the visibility that
/// the host reports at that moment and each carried out in full, leave the
/// window as visible as it was.
pub proof fn lemma_toggle_twice_restores(visible: bool)
    ensures
        ({
            let once = visible_after(toggle_ops(visible), visible);
            visible_after(toggle_ops(once), once) == visible
        }),
{
    lemma_toggle_inverts(visible);
    lemma_toggle_inverts(!visible);
}

/// Each branch of a toggle ends in a fixed state, whatever the window's
/// visibility was when the calls were made: hidden after the hiding branch,
/// shown after the raising branch.
pub proof fn lemma_toggle_end_state(decided_on: bool, actual: bool)
    ensures
        visible_after(toggle_ops(decided_on), actual) == !decided_on,
{
    reveal_with_fuel(visible_after, 3);
    let ops = toggle_ops(decided_on);
    if decided_on {
        assert(ops.drop_last() =~= Seq::<WindowOp>::empty());
    } else {
        assert(ops.drop_last() =~= seq![WindowOp::Show]);
        assert(ops.drop_last().drop_last() =~= Seq::<WindowOp>::empty());
    }
}

} // verus!
