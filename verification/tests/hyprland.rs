use hypr_cycle::domain::{OwnedMonitor, OwnedWorkspace};
use hyprrust::data::{Monitor, Sides, Workspace, WorkspaceBrief};

fn brief(id: i64, name: &str) -> WorkspaceBrief {
    WorkspaceBrief { id, name: name.to_string() }
}

fn monitor(id: i64, name: &str, focused: bool, active: WorkspaceBrief) -> Monitor {
    Monitor {
        id,
        name: name.to_string(),
        description: "Some Panel".to_string(),
        make: "Some".to_string(),
        model: "Panel".to_string(),
        serial: "".to_string(),
        width: 1920,
        height: 1080,
        refresh_rate: 60.0,
        x: 0,
        y: 0,
        active_workspace: active,
        special_workspace: brief(0, ""),
        reserved: Sides { left: 0, top: 30, right: 0, bottom: 0 },
        scale: 1.0,
        transform: 0,
        focused,
        dpms_status: true,
        vrr: false,
        solitary: "0".to_string(),
        actively_tearing: false,
        direct_scanout_to: "0".to_string(),
        disabled: false,
        current_format: "XRGB8888".to_string(),
        mirror_of: "none".to_string(),
        available_modes: vec!["1920x1080@60.00Hz".to_string()],
    }
}

fn workspace(id: i64, name: &str, monitor: &str) -> Workspace {
    Workspace {
        id,
        name: name.to_string(),
        monitor: monitor.to_string(),
        windows: 2,
        has_fullscreen: false,
        last_window_address: "0x55d2a3c0".to_string(),
        last_window_title: "shell".to_string(),
    }
}

#[test]
fn monitor_from_record() {
    let record = monitor(1, "eDP-1", true, brief(4, "four"));
    assert_eq!(
        OwnedMonitor::from(&record),
        OwnedMonitor::new(
            "eDP-1".to_string(),
            1,
            true,
            OwnedWorkspace::new(4, "eDP-1".to_string())
        )
    );

    let record = monitor(2, "HDMI-A-1", false, brief(-97, "special:scratch"));
    let owned = OwnedMonitor::from(&record);
    assert_eq!(owned.name(), "HDMI-A-1");
    assert_eq!(owned.id(), 2);
    assert!(!owned.focused());
    assert_eq!(owned.active_workspace().id(), -97);
    assert_eq!(owned.active_workspace().monitor_name(), "HDMI-A-1");
}

#[test]
fn workspace_from_record() {
    let record = workspace(3, "three", "HDMI-A-1");
    assert_eq!(
        OwnedWorkspace::from(&record),
        OwnedWorkspace::new(3, "HDMI-A-1".to_string())
    );

    let record = workspace(-98, "special:magic", "eDP-1");
    let owned = OwnedWorkspace::from(&record);
    assert_eq!(owned.id(), -98);
    assert_eq!(owned.monitor_name(), "eDP-1");
    assert!(!owned.visible());
}

#[test]
fn workspace_from_brief_record_has_no_monitor_name() {
    let owned = OwnedWorkspace::from(&brief(5, "five"));
    assert_eq!(owned, OwnedWorkspace::new(5, String::new()));
    assert_eq!(owned.monitor_name(), "");
}

#[test]
fn records_of_a_list_convert_one_by_one() {
    let records = vec![
        workspace(2, "2", "eDP-1"),
        workspace(1, "1", "eDP-1"),
        workspace(-97, "special", "eDP-1"),
    ];
    let owned: Vec<OwnedWorkspace> = records.iter().map(OwnedWorkspace::from).collect();
    assert_eq!(
        owned,
        vec![
            OwnedWorkspace::new(2, "eDP-1".to_string()),
            OwnedWorkspace::new(1, "eDP-1".to_string()),
            OwnedWorkspace::new(-97, "eDP-1".to_string()),
        ]
    );
}
