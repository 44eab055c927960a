use omsi2komsi::logger::{
    detect_changes, key_is_down, log_line, parse_opl, variable_name, window_action, Change,
    HotkeyToggle, MessageLog, WindowAction, DEFAULT_HOTKEY, MESSAGE_LIMIT, VARIABLE_SLOTS,
};

fn lines(text: &str) -> Vec<String> {
    text.lines().map(String::from).collect()
}

#[test]
fn plugin_file_with_variables_and_hotkey() {
    let file = parse_opl(&lines(
        "[dll]\nomsilogger.dll\n\n[varlist]\n3\nVelocity\n  door_0 \nEngine RPM\n\n[hotkey]\n0x7B\n",
    ));
    assert_eq!(file.var_names, vec!["Velocity", "door_0", "Engine RPM"]);
    assert_eq!(file.hotkey, 0x7B);
}

#[test]
fn empty_plugin_file_gives_the_defaults() {
    let file = parse_opl(&Vec::new());
    assert!(file.var_names.is_empty());
    assert_eq!(file.hotkey, DEFAULT_HOTKEY);
    assert_eq!(DEFAULT_HOTKEY, 122);
    let file = parse_opl(&lines("[varlist]\n[hotkey]\n"));
    assert!(file.var_names.is_empty());
    assert_eq!(file.hotkey, 0x7A);
}

#[test]
fn variable_list_ends_after_the_announced_count() {
    let file = parse_opl(&lines("[varlist]\n2\na\nb\nc\n[hotkey]\n65\n"));
    assert_eq!(file.var_names, vec!["a", "b"]);
    assert_eq!(file.hotkey, 65);
}

#[test]
fn lines_before_the_count_are_skipped() {
    let file = parse_opl(&lines("[varlist]\nnames\n0\n-1\n+2\nfirst\n\n"));
    assert_eq!(file.var_names, vec!["first", ""]);
}

#[test]
fn a_second_variable_list_goes_on_counting() {
    let file = parse_opl(&lines("[varlist]\n3\na\n[varlist]\nb\nc\nd\n"));
    assert_eq!(file.var_names, vec!["a", "b", "c"]);
    let file = parse_opl(&lines("[varlist]\n1\na\n[varlist]\nb\nc\n"));
    assert_eq!(file.var_names, vec!["a", "b"]);
}

#[test]
fn hotkey_is_read_in_decimal_and_to_the_base_16() {
    assert_eq!(parse_opl(&lines("[hotkey]\n123\n")).hotkey, 123);
    assert_eq!(parse_opl(&lines("[hotkey]\n0x70\n")).hotkey, 0x70);
    assert_eq!(parse_opl(&lines("[hotkey]\n0xfF\n")).hotkey, 255);
    assert_eq!(parse_opl(&lines("[hotkey]\n0x+10\n")).hotkey, 16);
    assert_eq!(parse_opl(&lines("[hotkey]\n0X70\n")).hotkey, DEFAULT_HOTKEY);
    assert_eq!(parse_opl(&lines("[hotkey]\n0x\n")).hotkey, DEFAULT_HOTKEY);
    assert_eq!(parse_opl(&lines("[hotkey]\nF11\n")).hotkey, DEFAULT_HOTKEY);
    assert_eq!(parse_opl(&lines("[hotkey]\n4294967296\n")).hotkey, DEFAULT_HOTKEY);
    assert_eq!(parse_opl(&lines("[hotkey]\n0x100000000\n")).hotkey, DEFAULT_HOTKEY);
    assert_eq!(parse_opl(&lines("[hotkey]\n4294967295\n")).hotkey, u32::MAX);
    assert_eq!(parse_opl(&lines("[hotkey]\n112\n113\nx\n")).hotkey, 113);
    assert_eq!(parse_opl(&lines("112\n")).hotkey, DEFAULT_HOTKEY);
}

#[test]
fn hotkey_changes_the_window_when_it_goes_down() {
    let mut toggle = HotkeyToggle { pressed: false, visible: false };
    toggle.update(false);
    assert_eq!(toggle, HotkeyToggle { pressed: false, visible: false });
    toggle.update(true);
    assert_eq!(toggle, HotkeyToggle { pressed: true, visible: true });
    toggle.update(true);
    assert_eq!(toggle, HotkeyToggle { pressed: true, visible: true });
    toggle.update(false);
    assert_eq!(toggle, HotkeyToggle { pressed: false, visible: true });
    toggle.update(true);
    assert_eq!(toggle, HotkeyToggle { pressed: true, visible: false });
}

#[test]
fn key_state_and_window_action() {
    for state in [i16::MIN, -1, 0, 1, i16::MAX] {
        assert_eq!(key_is_down(state), (state as u16 & 0x8000) != 0);
    }
    assert_eq!(window_action(true, false), WindowAction::Show);
    assert_eq!(window_action(false, true), WindowAction::Hide);
    assert_eq!(window_action(true, true), WindowAction::Keep);
    assert_eq!(window_action(false, false), WindowAction::Keep);
}

#[test]
fn changes_are_found_in_order_and_taken_as_seen() {
    let mut last = [0u32; VARIABLE_SLOTS];
    let mut current = [0u32; VARIABLE_SLOTS];
    assert!(detect_changes(&mut last, &current).is_empty());
    current[7] = 3;
    current[2] = 9;
    current[99] = 1;
    let changes = detect_changes(&mut last, &current);
    assert_eq!(
        changes,
        vec![
            Change { index: 2, before: 0, after: 9 },
            Change { index: 7, before: 0, after: 3 },
            Change { index: 99, before: 0, after: 1 },
        ]
    );
    assert_eq!(last, current);
    assert!(detect_changes(&mut last, &current).is_empty());
    current[7] = 0;
    assert_eq!(
        detect_changes(&mut last, &current),
        vec![Change { index: 7, before: 3, after: 0 }]
    );
}

#[test]
fn variables_are_named_by_the_plugin_file_or_by_their_number() {
    let names = vec![String::from("Velocity"), String::from("door_0")];
    assert_eq!(variable_name(&names, 0), "Velocity");
    assert_eq!(variable_name(&names, 1), "door_0");
    assert_eq!(variable_name(&names, 2), "Unknown_2");
    assert_eq!(variable_name(&names, 99), "Unknown_99");
    assert_eq!(variable_name(&Vec::new(), 0), "Unknown_0");
}

#[test]
fn log_line_holds_time_name_and_values() {
    assert_eq!(
        log_line("2024-05-01 12:00:00", "Velocity", 0, 42),
        "2024-05-01 12:00:00: Velocity, old: 0, new: 42\n"
    );
    assert_eq!(log_line("", "", u32::MAX, 7), ": , old: 4294967295, new: 7\n");
}

#[test]
fn message_log_keeps_the_latest_lines() {
    let mut log = MessageLog::new();
    assert_eq!(log.len(), 0);
    assert!(log.line(0).is_none());
    for i in 0..MESSAGE_LIMIT {
        log.push(format!("line {}", i));
    }
    assert_eq!(log.len(), MESSAGE_LIMIT);
    assert_eq!(log.line(0).unwrap(), "line 0");
    assert_eq!(log.line(99).unwrap(), "line 99");
    log.push(String::from("line 100"));
    assert_eq!(log.len(), MESSAGE_LIMIT);
    assert_eq!(log.line(0).unwrap(), "line 1");
    assert_eq!(log.line(99).unwrap(), "line 100");
    assert!(log.line(100).is_none());
}
