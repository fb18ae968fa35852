use layout_indicator::dock::{
    after_attempt, dock_request, tray_manager, tray_selection_name, DockError, DockStep,
    DOCK_RETRY_DELAY_MS, MAX_DOCK_ATTEMPTS, SYSTEM_TRAY_REQUEST_DOCK,
};

/// Runs the retry loop against a tray manager that answers on attempt `appears_on`
/// (never, with `None`); returns the final step and the number of queries made.
fn simulate(appears_on: Option<u32>, max: u32) -> (DockStep, u32) {
    let mut queries = 0;
    let mut attempt = 1;
    loop {
        queries += 1;
        let owner = if Some(attempt) >= appears_on && appears_on.is_some() { 42 } else { 0 };
        let ok = tray_manager(owner).is_ok();
        match after_attempt(attempt, max, ok) {
            DockStep::Retry { delay_ms } => {
                assert_eq!(delay_ms, DOCK_RETRY_DELAY_MS);
                attempt += 1;
            }
            other => return (other, queries),
        }
    }
}

#[test]
fn docks_on_fourth_attempt() {
    let (step, queries) = simulate(Some(4), MAX_DOCK_ATTEMPTS);
    assert_eq!(step, DockStep::Docked { attempt: 4 });
    assert_eq!(queries, 4);
}

#[test]
fn gives_up_after_all_attempts() {
    let (step, queries) = simulate(None, MAX_DOCK_ATTEMPTS);
    assert_eq!(step, DockStep::GiveUp { attempts: 10 });
    assert_eq!(queries, 10);
}

#[test]
fn docks_at_once_when_tray_runs() {
    assert_eq!(simulate(Some(1), MAX_DOCK_ATTEMPTS), (DockStep::Docked { attempt: 1 }, 1));
}

#[test]
fn late_tray_is_missed() {
    assert_eq!(simulate(Some(11), MAX_DOCK_ATTEMPTS), (DockStep::GiveUp { attempts: 10 }, 10));
}

#[test]
fn single_step_decisions() {
    assert_eq!(after_attempt(3, 10, true), DockStep::Docked { attempt: 3 });
    assert_eq!(after_attempt(3, 10, false), DockStep::Retry { delay_ms: 500 });
    assert_eq!(after_attempt(10, 10, false), DockStep::GiveUp { attempts: 10 });
    assert_eq!(after_attempt(10, 10, true), DockStep::Docked { attempt: 10 });
}

#[test]
fn no_owner_means_no_tray() {
    assert_eq!(tray_manager(0), Err(DockError::NoTrayManager));
    assert_eq!(tray_manager(0x1200007), Ok(0x1200007));
}

#[test]
fn selection_name_carries_screen_number() {
    assert_eq!(tray_selection_name(0), "_NET_SYSTEM_TRAY_S0");
    assert_eq!(tray_selection_name(1), "_NET_SYSTEM_TRAY_S1");
    assert_eq!(tray_selection_name(10), "_NET_SYSTEM_TRAY_S10");
    assert_eq!(tray_selection_name(305), "_NET_SYSTEM_TRAY_S305");
}

#[test]
fn request_embeds_the_window() {
    let r = dock_request(77, 300, 0x400001);
    assert_eq!(r.destination, 77);
    assert_eq!(r.message_type, 300);
    assert_eq!(r.data, [0, SYSTEM_TRAY_REQUEST_DOCK, 0x400001, 0, 0]);
}
