use widgets::hyprland::subscription::HyprlandWorkspaceEvent;
use widgets::hyprland::ui::{WorkspaceAction, WorkspaceDisplay, WorkspaceDisplayMessage};
use widgets::hyprland::{
    active_workspace_index, switch_result, windows_from_clients, workspace_number, CommandStatus,
    ErrorKind, HyprlandClient, HyprlandCommunicationError,
};

fn client(address: &str, workspace_id: usize) -> HyprlandClient {
    HyprlandClient { address: address.to_string(), workspace_id }
}

fn event(d: &mut WorkspaceDisplay, e: HyprlandWorkspaceEvent) -> WorkspaceAction {
    let m = WorkspaceDisplayMessage::EventReceived(e);
    assert!(d.accepts(&m));
    d.update(m)
}

fn two_windows() -> WorkspaceDisplay {
    WorkspaceDisplay::create_from_commands(2, &vec![client("0x10", 2), client("0x11", 2)]).unwrap()
}

#[test]
fn snapshot_from_query_replies() {
    let d = two_windows();
    assert_eq!(d.active_workspace(), 1);
    let mut expected = [0u32; 10];
    expected[1] = 2;
    assert_eq!(d.window_count(), expected);
    assert_eq!(d.window_total(), 2);
    assert_eq!(d.workspace_of(0x10), Some(1));
    assert_eq!(d.workspace_of(0x11), Some(1));
    assert_eq!(d.workspace_of(0x12), None);
}

#[test]
fn snapshot_errors_are_classified() {
    let kind = |active: usize, cs: Vec<HyprlandClient>| match WorkspaceDisplay::create_from_commands(active, &cs) {
        Err(e) => e.kind(),
        Ok(_) => panic!("expected an error"),
    };
    assert_eq!(kind(1, vec![client("10", 1)]), ErrorKind::HexadecimalMissingPrefix);
    assert_eq!(kind(1, vec![client("0x1g", 1)]), ErrorKind::WindowAddressParsingError);
    assert_eq!(kind(1, vec![client("0x", 1)]), ErrorKind::WindowAddressParsingError);
    assert_eq!(kind(1, vec![client("0x10", 0)]), ErrorKind::WorkspaceIdOutOfRange);
    assert_eq!(kind(1, vec![client("0x10", 11)]), ErrorKind::WorkspaceIdOutOfRange);
    assert_eq!(kind(0, vec![client("0x10", 1)]), ErrorKind::WorkspaceIdOutOfRange);
    assert_eq!(kind(11, vec![client("zz", 1)]), ErrorKind::WorkspaceIdOutOfRange);
    assert_eq!(kind(1, vec![client("0x10", 1), client("x", 1), client("0xzz", 1)]), ErrorKind::HexadecimalMissingPrefix);
}

#[test]
fn empty_window_list_gives_empty_state() {
    let d = WorkspaceDisplay::create_from_commands(10, &Vec::new()).unwrap();
    assert_eq!(d.active_workspace(), 9);
    assert_eq!(d.window_count(), [0u32; 10]);
    assert_eq!(d.window_total(), 0);
}

#[test]
fn windows_from_clients_counts_duplicates() {
    let (windows, counts) = windows_from_clients(&vec![client("0x10", 1), client("0x10", 3)]).unwrap();
    assert_eq!(windows.len(), 1);
    assert_eq!(windows.get(&0x10), Some(&2));
    assert_eq!(counts[0], 1);
    assert_eq!(counts[2], 1);
}

#[test]
fn active_workspace_is_zero_based() {
    assert_eq!(active_workspace_index(2).unwrap(), 1);
    assert_eq!(active_workspace_index(0).unwrap_err().kind(), ErrorKind::WorkspaceIdOutOfRange);
}

#[test]
fn open_then_close_restores_state() {
    let mut d = two_windows();
    let counts = d.window_count();
    assert!(matches!(
        event(&mut d, HyprlandWorkspaceEvent::OpenWindow { window_address: 0x20, workspace_id: 4 }),
        WorkspaceAction::Nothing
    ));
    assert_eq!(d.window_count()[4], 1);
    assert_eq!(d.workspace_of(0x20), Some(4));
    assert!(matches!(
        event(&mut d, HyprlandWorkspaceEvent::CloseWindow { window_address: 0x20 }),
        WorkspaceAction::Nothing
    ));
    assert_eq!(d.window_count(), counts);
    assert_eq!(d.workspace_of(0x20), None);
    assert_eq!(d.window_total(), 2);
}

#[test]
fn move_shifts_one_window() {
    let mut d = two_windows();
    let before = d.window_count();
    event(&mut d, HyprlandWorkspaceEvent::MoveWindow { window_address: 0x10, new_workspace_id: 6 });
    let after = d.window_count();
    assert_eq!(after[1], before[1] - 1);
    assert_eq!(after[6], before[6] + 1);
    assert_eq!(after.iter().sum::<u32>(), before.iter().sum::<u32>());
    assert_eq!(d.workspace_of(0x10), Some(6));
}

#[test]
fn move_within_same_workspace_keeps_counts() {
    let mut d = two_windows();
    let before = d.window_count();
    event(&mut d, HyprlandWorkspaceEvent::MoveWindow { window_address: 0x10, new_workspace_id: 1 });
    assert_eq!(d.window_count(), before);
}

#[test]
fn unknown_window_is_reported_and_ignored() {
    let mut d = two_windows();
    let counts = d.window_count();
    match event(&mut d, HyprlandWorkspaceEvent::CloseWindow { window_address: 0x99 }) {
        WorkspaceAction::Report(HyprlandCommunicationError::RequestInexistantWindow {
            requested_address,
            mut addresses_in_memory,
        }) => {
            assert_eq!(requested_address, 0x99);
            addresses_in_memory.sort();
            assert_eq!(addresses_in_memory, vec![0x10, 0x11]);
        }
        other => panic!("unexpected {:?}", other),
    }
    match event(&mut d, HyprlandWorkspaceEvent::MoveWindow { window_address: 0x98, new_workspace_id: 3 }) {
        WorkspaceAction::Report(e) => assert_eq!(e.kind(), ErrorKind::RequestInexistantWindow),
        other => panic!("unexpected {:?}", other),
    }
    assert_eq!(d.window_count(), counts);
    assert_eq!(d.workspace_of(0x98), None);
    assert_eq!(d.window_total(), 2);
}

#[test]
fn change_of_workspace_and_noop() {
    let mut d = two_windows();
    event(&mut d, HyprlandWorkspaceEvent::ChangeActiveWorkspace { new_workspace_id: 7 });
    assert_eq!(d.active_workspace(), 7);
    event(&mut d, HyprlandWorkspaceEvent::Noop);
    event(&mut d, HyprlandWorkspaceEvent::Error);
    assert_eq!(d.active_workspace(), 7);
    assert_eq!(d.window_total(), 2);
}

#[test]
fn reopening_a_known_address_counts_again() {
    let mut d = two_windows();
    event(&mut d, HyprlandWorkspaceEvent::OpenWindow { window_address: 0x10, workspace_id: 3 });
    assert_eq!(d.window_count()[1], 2);
    assert_eq!(d.window_count()[3], 1);
    assert_eq!(d.workspace_of(0x10), Some(3));
    assert_eq!(d.window_total(), 2);
}

#[test]
fn out_of_range_events_are_not_accepted() {
    let d = two_windows();
    let m = WorkspaceDisplayMessage::EventReceived(HyprlandWorkspaceEvent::ChangeActiveWorkspace {
        new_workspace_id: 10,
    });
    assert!(!d.accepts(&m));
}

#[test]
fn button_click_asks_for_switch() {
    let mut d = two_windows();
    match d.update(WorkspaceDisplayMessage::WorkspaceButtonClicked(4)) {
        WorkspaceAction::SwitchTo(4) => {}
        other => panic!("unexpected {:?}", other),
    }
    assert_eq!(d.active_workspace(), 1);
    assert_eq!(workspace_number(4), 5);
}

#[test]
fn switch_outcomes_are_classified() {
    let cmd = || "hyprctl dispatch workspace 5".to_string();
    assert!(switch_result(cmd(), CommandStatus::Exited { success: true, code: Some(0) }).is_ok());
    match switch_result(cmd(), CommandStatus::Exited { success: false, code: Some(3) }) {
        Err(HyprlandCommunicationError::HyprctlFailure { exit_code, .. }) => assert_eq!(exit_code, Some(3)),
        other => panic!("unexpected {:?}", other),
    }
    let e = switch_result(cmd(), CommandStatus::NotLaunched { error: "not found".to_string() }).unwrap_err();
    assert_eq!(e.kind(), ErrorKind::IoError);
}

#[test]
fn snapshot_errors_carry_their_text() {
    match WorkspaceDisplay::create_from_commands(1, &vec![client("0x10", 1), client("10", 1)]) {
        Err(HyprlandCommunicationError::HexadecimalMissingPrefix { command, address }) => {
            assert_eq!(command, "hyprctl clients -j");
            assert_eq!(address, "10");
        }
        Err(e) => panic!("unexpected {:?}", e),
        Ok(_) => panic!("expected an error"),
    }
    match WorkspaceDisplay::create_from_commands(1, &vec![client("0xzz", 1)]) {
        Err(HyprlandCommunicationError::WindowAddressParsingError { command, address }) => {
            assert_eq!(command, "hyprctl clients -j");
            assert_eq!(address, "zz");
        }
        Err(e) => panic!("unexpected {:?}", e),
        Ok(_) => panic!("expected an error"),
    }
    match WorkspaceDisplay::create_from_commands(1, &vec![client("0x10", 12)]) {
        Err(HyprlandCommunicationError::WorkspaceIdOutOfRange { command, workspace_id }) => {
            assert_eq!(command, "hyprctl clients -j");
            assert_eq!(workspace_id, 12);
        }
        Err(e) => panic!("unexpected {:?}", e),
        Ok(_) => panic!("expected an error"),
    }
    match WorkspaceDisplay::create_from_commands(0, &Vec::new()) {
        Err(HyprlandCommunicationError::WorkspaceIdOutOfRange { command, workspace_id }) => {
            assert_eq!(command, "hyprctl activeworkspace -j");
            assert_eq!(workspace_id, 0);
        }
        Err(e) => panic!("unexpected {:?}", e),
        Ok(_) => panic!("expected an error"),
    }
}

#[test]
fn switch_failures_keep_the_command() {
    let cmd = "hyprctl dispatch workspace 5";
    match switch_result(cmd.to_string(), CommandStatus::NotLaunched { error: "not found".to_string() }) {
        Err(HyprlandCommunicationError::IoError { command, error }) => {
            assert_eq!(command, cmd);
            assert_eq!(error, "not found");
        }
        other => panic!("unexpected {:?}", other),
    }
    match switch_result(cmd.to_string(), CommandStatus::Exited { success: false, code: None }) {
        Err(HyprlandCommunicationError::HyprctlFailure { command, exit_code }) => {
            assert_eq!(command, cmd);
            assert_eq!(exit_code, None);
        }
        other => panic!("unexpected {:?}", other),
    }
}

#[test]
fn move_of_unknown_window_to_any_workspace_is_ignored() {
    let mut d = two_windows();
    let counts = d.window_count();
    match event(&mut d, HyprlandWorkspaceEvent::MoveWindow { window_address: 0x77, new_workspace_id: 40 }) {
        WorkspaceAction::Report(e) => assert_eq!(e.kind(), ErrorKind::RequestInexistantWindow),
        other => panic!("unexpected {:?}", other),
    }
    assert_eq!(d.window_count(), counts);
    assert_eq!(d.active_workspace(), 1);
    assert_eq!(d.window_total(), 2);
}
