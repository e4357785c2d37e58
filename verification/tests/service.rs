use std::cell::RefCell;
use std::rc::Rc;

use hypr_cycle::connection::HyprlandClient;
use hypr_cycle::domain::{Direction, OwnedMonitor, OwnedWorkspace};
use hypr_cycle::error::{CycleError, TransportError};
use hypr_cycle::service::HyprCycle;

fn ws(id: i64, mon: &str) -> OwnedWorkspace {
    OwnedWorkspace::new(id, mon.to_string())
}

fn mon(name: &str, id: i64, focused: bool, active_id: i64) -> OwnedMonitor {
    OwnedMonitor::new(name.to_string(), id, focused, ws(active_id, name))
}

fn monitors() -> Vec<OwnedMonitor> {
    vec![
        mon("eDP-1", 1, true, 1), //active monitor
        mon("HDMI-1", 2, false, 3),
    ]
}

fn workspaces() -> Vec<OwnedWorkspace> {
    vec![
        ws(-97, "eDP-1"), //hidden workspace ("scratch")
        ws(1, "eDP-1"),
        ws(2, "eDP-1"),
        ws(3, "HDMI-1"),
    ]
}

/// What a client was asked, in the order of the calls.
#[derive(Debug, Clone, PartialEq)]
enum Call {
    Monitors,
    Workspaces,
    Switch(i64),
}

/// A client that answers from fixed lists and keeps what it was asked.
struct CannedClient {
    monitors: Result<Vec<OwnedMonitor>, TransportError>,
    workspaces: Result<Vec<OwnedWorkspace>, TransportError>,
    switch: Result<(), TransportError>,
    calls: Rc<RefCell<Vec<Call>>>,
}

impl CannedClient {
    fn new() -> CannedClient {
        CannedClient {
            monitors: Ok(monitors()),
            workspaces: Ok(workspaces()),
            switch: Ok(()),
            calls: Rc::new(RefCell::new(Vec::new())),
        }
    }
}

impl HyprlandClient for CannedClient {
    fn get_monitors(&self) -> Result<Vec<OwnedMonitor>, TransportError> {
        self.calls.borrow_mut().push(Call::Monitors);
        self.monitors.clone()
    }

    fn get_workspaces(&self) -> Result<Vec<OwnedWorkspace>, TransportError> {
        self.calls.borrow_mut().push(Call::Workspaces);
        self.workspaces.clone()
    }

    fn go_to_workspace(&self, id: i64) -> Result<(), TransportError> {
        self.calls.borrow_mut().push(Call::Switch(id));
        self.switch.clone()
    }
}

fn mock_service_with(conn: CannedClient) -> HyprCycle {
    HyprCycle::new(Box::new(conn))
}

fn service_on(conn: CannedClient) -> HyprCycle<CannedClient> {
    HyprCycle::new(Box::new(conn))
}

fn mock_service() -> HyprCycle {
    mock_service_with(CannedClient::new())
}

fn visible_for_monitor(ws: Vec<OwnedWorkspace>, monitor: &OwnedMonitor) -> Vec<OwnedWorkspace> {
    ws.into_iter()
        .filter(|w| w.visible() && w.monitor_name() == monitor.name())
        .collect()
}

fn focused_monitor(monitors: Vec<OwnedMonitor>) -> Result<OwnedMonitor, CycleError> {
    monitors
        .into_iter()
        .find(|m| m.focused())
        .ok_or(CycleError::NoFocusedMonitor)
}

fn by_id(workspaces: &mut Vec<OwnedWorkspace>) {
    workspaces.sort_by(|a, b| a.partial_cmp(b).unwrap());
}

/// There are two monitors in the fixture. One is marked active.
/// This test ensures that the focused monitor is returned by the function.
#[test]
fn service_test_get_focused_monitor() -> Result<(), CycleError> {
    let hs = mock_service();
    let expected = focused_monitor(monitors())?;
    let returned = hs.get_focused_monitor()?;
    assert_eq!(returned.name(), expected.name());
    Ok(())
}

/// The first monitor has three workspaces, but only two are visible.
/// This test ensures that only the visible workspaces are returned
/// by the function.
#[test]
fn service_test_get_workspaces_for_monitor() -> Result<(), CycleError> {
    let hs = mock_service();

    let target_monitor = &monitors()[0];
    let mut target_workspaces = hs.get_workspaces_for_monitor(target_monitor)?;

    // All of the returned workspaces are visible
    assert!(target_workspaces.iter().all(|w| w.visible()));

    // All of the returned workspaces match the argument monitor's name
    assert!(target_workspaces
        .iter()
        .all(|w| w.monitor_name() == target_monitor.name()));

    // Filter the whole list of workspaces to get only the expected returns
    let mut expected_workspaces: Vec<_> = visible_for_monitor(workspaces(), target_monitor);

    // All of the expected workspaces are present
    // (we sort the collections first, because eq() is order-dependent)
    by_id(&mut expected_workspaces);
    by_id(&mut target_workspaces);
    assert_eq!(expected_workspaces, target_workspaces);
    Ok(())
}

/// Monitors each keep track of their active workspace.
/// Of the two monitors in the fixture, one is marked focused.
/// This test ensures that the function returns the focused monitor's
/// active workspace.
#[test]
fn service_test_get_current_workspace() -> Result<(), CycleError> {
    let hs = mock_service();
    let expected = focused_monitor(monitors())?;
    let returned = hs.get_current_workspace()?;
    assert_eq!(returned.id(), expected.active_workspace().id());
    Ok(())
}

/// The service hands one switch command to its client, with the id of the
/// workspace it was given.
#[test]
fn service_test_switch_to_workspace() {
    let conn = CannedClient::new();
    let calls = conn.calls.clone();
    let hs = mock_service_with(conn);

    let _ = hs.switch_to_workspace(&workspaces()[0]);

    assert_eq!(*calls.borrow(), vec![Call::Switch(-97)]);
}

#[test]
fn scenario_of_two_monitors() {
    let hs = mock_service();

    let focused = hs.get_focused_monitor().unwrap();
    assert_eq!(focused, mon("eDP-1", 1, true, 1));
    assert_eq!(
        hs.get_workspaces_for_monitor(&focused),
        Ok(vec![ws(1, "eDP-1"), ws(2, "eDP-1")])
    );
    assert_eq!(hs.get_current_workspace(), Ok(ws(1, "eDP-1")));
    assert_eq!(hs.get_target_workspace(Direction::Next), Ok(ws(2, "eDP-1")));
    assert_eq!(
        hs.get_target_workspace(Direction::Previous),
        Ok(ws(2, "eDP-1"))
    );
}

#[test]
fn get_target_workspace_wraps_at_both_ends() {
    let mut conn = CannedClient::new();
    conn.monitors = Ok(vec![mon("HDMI-1", 2, false, 3), mon("eDP-1", 1, true, 9)]);
    conn.workspaces = Ok(vec![ws(9, "eDP-1"), ws(4, "eDP-1"), ws(3, "HDMI-1"), ws(6, "eDP-1")]);
    let hs = mock_service_with(conn);

    assert_eq!(hs.get_target_workspace(Direction::Next), Ok(ws(4, "eDP-1")));
    assert_eq!(
        hs.get_target_workspace(Direction::Previous),
        Ok(ws(6, "eDP-1"))
    );
}

#[test]
fn get_target_workspace_asks_monitors_workspaces_monitors() {
    let conn = CannedClient::new();
    let calls = conn.calls.clone();
    let hs = mock_service_with(conn);

    assert!(hs.get_target_workspace(Direction::Next).is_ok());

    assert_eq!(
        *calls.borrow(),
        vec![Call::Monitors, Call::Workspaces, Call::Monitors]
    );
}

#[test]
fn get_target_workspace_fails_on_hidden_active_workspace() {
    let mut conn = CannedClient::new();
    conn.monitors = Ok(vec![mon("eDP-1", 1, true, -97), mon("HDMI-1", 2, false, 3)]);
    let calls = conn.calls.clone();
    let hs = mock_service_with(conn);

    assert_eq!(
        hs.get_target_workspace(Direction::Next),
        Err(CycleError::CurrentWorkspaceNotFound)
    );
    assert_eq!(
        hs.get_target_workspace(Direction::Previous),
        Err(CycleError::CurrentWorkspaceNotFound)
    );
    assert!(!calls.borrow().iter().any(|c| matches!(c, Call::Switch(_))));
}

#[test]
fn get_target_workspace_stops_at_the_first_failure() {
    let mut conn = CannedClient::new();
    conn.monitors = Ok(vec![mon("eDP-1", 1, false, 1)]);
    let calls = conn.calls.clone();
    let hs = mock_service_with(conn);
    assert_eq!(
        hs.get_target_workspace(Direction::Next),
        Err(CycleError::NoFocusedMonitor)
    );
    assert_eq!(*calls.borrow(), vec![Call::Monitors]);

    let mut conn = CannedClient::new();
    conn.workspaces = Ok(vec![ws(3, "HDMI-1"), ws(-97, "eDP-1")]);
    let calls = conn.calls.clone();
    let hs = mock_service_with(conn);
    assert_eq!(
        hs.get_target_workspace(Direction::Next),
        Err(CycleError::NoWorkspacesForMonitor("eDP-1".to_string()))
    );
    assert_eq!(*calls.borrow(), vec![Call::Monitors, Call::Workspaces]);

    let lost = TransportError::new("socket file not found".to_string());
    let mut conn = CannedClient::new();
    conn.workspaces = Err(lost.clone());
    let calls = conn.calls.clone();
    let hs = mock_service_with(conn);
    assert_eq!(
        hs.get_target_workspace(Direction::Previous),
        Err(CycleError::TransportError(lost))
    );
    assert_eq!(*calls.borrow(), vec![Call::Monitors, Call::Workspaces]);
}

#[test]
fn a_cycle_request_switches_once_to_the_target() {
    for (direction, expected) in [(Direction::Next, 2), (Direction::Previous, 3)] {
        let mut conn = CannedClient::new();
        conn.workspaces = Ok(vec![ws(3, "eDP-1"), ws(1, "eDP-1"), ws(2, "eDP-1")]);
        let calls = conn.calls.clone();
        let hs = mock_service_with(conn);

        let target = hs.get_target_workspace(direction).unwrap();
        assert_eq!(hs.switch_to_workspace(&target), Ok(()));

        let switches: Vec<Call> = calls
            .borrow()
            .iter()
            .filter(|c| matches!(c, Call::Switch(_)))
            .cloned()
            .collect();
        assert_eq!(switches, vec![Call::Switch(expected)]);
    }
}

#[test]
fn switch_to_workspace_hands_the_failure_on() {
    let rejected = TransportError::new("invalid workspace".to_string());
    let mut conn = CannedClient::new();
    conn.switch = Err(rejected.clone());
    let calls = conn.calls.clone();
    let hs = mock_service_with(conn);

    assert_eq!(
        hs.switch_to_workspace(&ws(2, "eDP-1")),
        Err(CycleError::TransportError(rejected))
    );
    assert_eq!(*calls.borrow(), vec![Call::Switch(2)]);
}

#[test]
fn a_service_on_a_client_of_known_type() {
    let conn = CannedClient::new();
    let calls = conn.calls.clone();
    let hs = service_on(conn);

    assert_eq!(hs.get_target_workspace(Direction::Next), Ok(ws(2, "eDP-1")));
    assert_eq!(hs.switch_to_workspace(&ws(2, "eDP-1")), Ok(()));
    assert_eq!(
        *calls.borrow(),
        vec![Call::Monitors, Call::Workspaces, Call::Monitors, Call::Switch(2)]
    );
}

#[test]
fn parse_args_of_the_service() {
    assert_eq!(
        HyprCycle::parse_args(None).map(|a| a.direction),
        Ok(Direction::Next)
    );
    assert_eq!(
        HyprCycle::parse_args(Some("prev".to_string())).map(|a| a.direction),
        Ok(Direction::Previous)
    );
}
