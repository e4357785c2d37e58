use hypr_cycle::domain::{OwnedMonitor, OwnedWorkspace};
use hypr_cycle::error::CycleError;
use hypr_cycle::resolve::{find_focused_monitor, select_workspaces_for_monitor, sort_workspaces};
use hypr_cycle::text::{chars_of, is_whitespace_char, lower_char, normalize, spells};

fn ws(id: i64, mon: &str) -> OwnedWorkspace {
    OwnedWorkspace::new(id, mon.to_string())
}

fn mon(name: &str, id: i64, focused: bool, active_id: i64) -> OwnedMonitor {
    OwnedMonitor::new(name.to_string(), id, focused, ws(active_id, name))
}

#[test]
fn find_focused_monitor_finds_the_one() {
    let monitors = vec![
        mon("DP-1", 0, false, 4),
        mon("DP-2", 1, false, 5),
        mon("DP-3", 2, true, 6),
        mon("DP-4", 3, false, 7),
    ];
    assert_eq!(find_focused_monitor(&monitors), Ok(mon("DP-3", 2, true, 6)));
}

#[test]
fn find_focused_monitor_fails_on_none() {
    assert_eq!(find_focused_monitor(&Vec::new()), Err(CycleError::NoFocusedMonitor));
    assert_eq!(
        find_focused_monitor(&vec![mon("DP-1", 0, false, 4)]),
        Err(CycleError::NoFocusedMonitor)
    );
}

#[test]
fn find_focused_monitor_takes_the_first() {
    let monitors = vec![mon("DP-1", 0, true, 4), mon("DP-2", 1, true, 5)];
    assert_eq!(find_focused_monitor(&monitors), Ok(mon("DP-1", 0, true, 4)));
}

#[test]
fn select_workspaces_filters_on_monitor_and_visibility_together() {
    let workspaces = vec![
        ws(-97, "eDP-1"),
        ws(1, "eDP-1"),
        ws(2, "eDP-1"),
        ws(3, "HDMI-1"),
        ws(-98, "HDMI-1"),
        ws(0, "eDP-1"),
        ws(4, ""),
    ];
    assert_eq!(
        select_workspaces_for_monitor(&workspaces, &mon("eDP-1", 1, true, 1)),
        Ok(vec![ws(1, "eDP-1"), ws(2, "eDP-1")])
    );
    assert_eq!(
        select_workspaces_for_monitor(&workspaces, &mon("HDMI-1", 2, false, 3)),
        Ok(vec![ws(3, "HDMI-1")])
    );
    assert_eq!(
        select_workspaces_for_monitor(&workspaces, &mon("DP-1", 3, false, 3)),
        Err(CycleError::NoWorkspacesForMonitor("DP-1".to_string()))
    );
}

#[test]
fn select_workspaces_keeps_a_workspace_given_twice() {
    let workspaces = vec![ws(2, "eDP-1"), ws(1, "eDP-1"), ws(2, "eDP-1")];
    assert_eq!(
        select_workspaces_for_monitor(&workspaces, &mon("eDP-1", 1, true, 1)),
        Ok(vec![ws(1, "eDP-1"), ws(2, "eDP-1"), ws(2, "eDP-1")])
    );
}

#[test]
fn select_workspaces_of_none_fails() {
    assert_eq!(
        select_workspaces_for_monitor(&Vec::new(), &mon("eDP-1", 1, true, 1)),
        Err(CycleError::NoWorkspacesForMonitor("eDP-1".to_string()))
    );
}

#[test]
fn sort_workspaces_by_id() {
    let workspaces = vec![
        ws(5, "a"),
        ws(-3, "a"),
        ws(i64::MAX, "a"),
        ws(0, "a"),
        ws(i64::MIN, "a"),
        ws(2, "a"),
    ];
    assert_eq!(
        sort_workspaces(&workspaces),
        vec![
            ws(i64::MIN, "a"),
            ws(-3, "a"),
            ws(0, "a"),
            ws(2, "a"),
            ws(5, "a"),
            ws(i64::MAX, "a"),
        ]
    );
    assert_eq!(sort_workspaces(&Vec::new()), Vec::new());
}

#[test]
fn sort_workspaces_keeps_the_order_of_equal_ids() {
    let workspaces = vec![ws(2, "b"), ws(1, "z"), ws(2, "a"), ws(1, "y"), ws(2, "c")];
    assert_eq!(
        sort_workspaces(&workspaces),
        vec![ws(1, "z"), ws(1, "y"), ws(2, "b"), ws(2, "a"), ws(2, "c")]
    );
}

#[test]
fn sort_workspaces_agrees_with_a_stable_sort() {
    let mut seed: u64 = 0x2545_f491_4f6c_dd1d;
    for round in 0..200 {
        let mut workspaces = Vec::new();
        for k in 0..(round % 17) {
            seed ^= seed << 13;
            seed ^= seed >> 7;
            seed ^= seed << 17;
            workspaces.push(ws((seed % 7) as i64 - 3, &format!("m{}", k)));
        }
        let mut expected = workspaces.clone();
        expected.sort_by_key(|w| w.id());
        assert_eq!(sort_workspaces(&workspaces), expected);
    }
}

#[test]
fn text_helpers() {
    assert_eq!(chars_of("héllo"), vec!['h', 'é', 'l', 'l', 'o']);
    assert_eq!(chars_of(""), Vec::<char>::new());
    assert!(is_whitespace_char(' '));
    assert!(is_whitespace_char('\n'));
    assert!(is_whitespace_char('\u{3000}'));
    assert!(!is_whitespace_char('a'));
    assert!(!is_whitespace_char('\u{200b}'));
    assert_eq!(lower_char('A'), 'a');
    assert_eq!(lower_char('Z'), 'z');
    assert_eq!(lower_char('m'), 'm');
    assert_eq!(lower_char('@'), '@');
    assert_eq!(lower_char('['), '[');
    assert_eq!(lower_char('É'), 'É');
    assert_eq!(normalize("  Hello World \t"), chars_of("hello world"));
    assert_eq!(normalize(" \n "), Vec::<char>::new());
    assert!(spells(&chars_of("next"), "next"));
    assert!(!spells(&chars_of("next"), "nex"));
    assert!(!spells(&chars_of("nex"), "next"));
    assert!(!spells(&chars_of("nexT"), "next"));
}

#[test]
fn normalize_agrees_with_the_standard_library() {
    for text in [
        "",
        " ",
        "next",
        "  NEXT\n",
        "\u{2003}Prev ious\u{85}",
        "ÀB c\u{a0}",
        "\u{feff} x ",
        " \u{1680}\u{2000}\u{2001}\u{2002}\u{2004}\u{2005}\u{2006}Z\u{2007}\u{2008}\u{2009}\u{200a}",
        "\u{b}\u{c}\u{1c}\u{1d}\u{1e}\u{1f}",
    ] {
        let expected: Vec<char> = text.trim().to_ascii_lowercase().chars().collect();
        assert_eq!(normalize(text), expected, "{:?}", text);
    }
}
