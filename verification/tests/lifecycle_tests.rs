use deep_link_gateway::lifecycle::{startup_steps, StartupStep};

#[test]
fn desktop_startup_order() {
    assert_eq!(
        startup_steps(true),
        vec![
            StartupStep::InstallTray,
            StartupStep::ListenForDeepLinks,
            StartupStep::AnnounceReady
        ]
    );
}

#[test]
fn startup_order_without_tray() {
    assert_eq!(
        startup_steps(false),
        vec![StartupStep::ListenForDeepLinks, StartupStep::AnnounceReady]
    );
}

#[test]
fn ready_is_announced_once_and_last() {
    for desktop in [true, false] {
        let steps = startup_steps(desktop);
        let ready = steps.iter().filter(|s| **s == StartupStep::AnnounceReady).count();
        assert_eq!(ready, 1);
        assert_eq!(steps.last(), Some(&StartupStep::AnnounceReady));
    }
}
