//! Startup of the host adapter: what is set up, in which order, and when
//! the UI is told that the channels are live.

use vstd::prelude::*;

verus! {

/// One step of the adapter's startup.
#[derive(Clone, Copy, Debug, PartialEq, Eq, Structural)]
pub enum StartupStep {
    /// Build the tray icon with its menu.
    InstallTray,
    /// Subscribe to the host's deep-link signal.
    ListenForDeepLinks,
    /// Emit the ready event.
    AnnounceReady,
}

/// The steps of startup in order. Only a desktop host has a tray.
pub open spec fn startup_plan(desktop: bool) -> Seq<StartupStep> {
    if desktop {
        seq![StartupStep::InstallTray, StartupStep::ListenForDeepLinks, StartupStep::AnnounceReady]
    } else {
        seq![StartupStep::ListenForDeepLinks, StartupStep::AnnounceReady]
    }
}

/// The steps of startup in the order in which the host is to take them.
/// A step that fails ends startup: none of the later steps is taken.
pub fn startup_steps(desktop: bool) -> (steps: Vec<StartupStep>)
    ensures
        steps@ == startup_plan(desktop),
{
    let mut steps: Vec<StartupStep> = Vec::new();
    if desktop {
        steps.push(StartupStep::InstallTray);
    }
    steps.push(StartupStep::ListenForDeepLinks);
    steps.push(StartupStep::AnnounceReady);
    assert(steps@ =~= startup_plan(desktop));
    steps
}

/// The ready event is announced exactly once, as the last step, after the
/// deep-link listener is registered.
pub proof fn lemma_ready_once_and_last(desktop: bool)
    ensures
        startup_plan(desktop).last() == StartupStep::AnnounceReady,
        forall|i: int|
            0 <= i < startup_plan(desktop).len() - 1 ==> #[trigger] startup_plan(desktop)[i]
                != StartupStep::AnnounceReady,
        exists|i: int|
            0 <= i < startup_plan(desktop).len() - 1 && #[trigger] startup_plan(desktop)[i]
                == StartupStep::ListenForDeepLinks,
{
    if desktop {
        assert(startup_plan(desktop)[1] == StartupStep::ListenForDeepLinks);
    } else {
        assert(startup_plan(desktop)[0] == StartupStep::ListenForDeepLinks);
    }
}

} // verus!
