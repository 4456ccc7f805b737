use widgets::hyprland::subscription::{parse_hyprland_event, HyprlandWorkspaceEvent};
use widgets::hyprland::{ErrorKind, HyprlandCommunicationError};

fn kind_of(line: &str) -> ErrorKind {
    match parse_hyprland_event(line) {
        Err(e) => e.kind(),
        Ok(r) => panic!("expected an error for {:?}, got {:?}", line, r),
    }
}

#[test]
fn workspace_event_is_zero_based() {
    assert_eq!(
        parse_hyprland_event("workspace>>3").unwrap(),
        Some(HyprlandWorkspaceEvent::ChangeActiveWorkspace { new_workspace_id: 2 })
    );
}

#[test]
fn openwindow_event_reads_hex_address() {
    assert_eq!(
        parse_hyprland_event("openwindow>>1a2b,3").unwrap(),
        Some(HyprlandWorkspaceEvent::OpenWindow { window_address: 0x1a2b, workspace_id: 2 })
    );
}

#[test]
fn closewindow_event_reads_hex_address() {
    assert_eq!(
        parse_hyprland_event("closewindow>>1a2b").unwrap(),
        Some(HyprlandWorkspaceEvent::CloseWindow { window_address: 0x1a2b })
    );
}

#[test]
fn movewindow_event_reads_address_and_workspace() {
    assert_eq!(
        parse_hyprland_event("movewindow>>1A2B,10").unwrap(),
        Some(HyprlandWorkspaceEvent::MoveWindow { window_address: 0x1a2b, new_workspace_id: 9 })
    );
}

#[test]
fn unknown_event_yields_nothing() {
    assert_eq!(parse_hyprland_event("somethingelse>>x,y").unwrap(), None);
    assert_eq!(parse_hyprland_event("fullscreen>>1").unwrap(), None);
    assert_eq!(parse_hyprland_event("").unwrap(), None);
}

#[test]
fn invalid_hex_is_an_address_error() {
    assert_eq!(kind_of("openwindow>>zz,3"), ErrorKind::WindowAddressParsingError);
    match parse_hyprland_event("openwindow>>zz,3") {
        Err(HyprlandCommunicationError::WindowAddressParsingError { command, address }) => {
            assert_eq!(command, "openwindow>>zz,3");
            assert_eq!(address, "zz");
        }
        other => panic!("unexpected {:?}", other),
    }
}

#[test]
fn missing_arguments_are_args_errors() {
    assert_eq!(kind_of("openwindow>>1a2b"), ErrorKind::EventArgsParsingError);
    assert_eq!(kind_of("movewindow>>1a2b"), ErrorKind::EventArgsParsingError);
    assert_eq!(kind_of("workspace"), ErrorKind::EventArgsParsingError);
    match parse_hyprland_event("openwindow>>1a2b") {
        Err(HyprlandCommunicationError::EventArgsParsingError { event, args }) => {
            assert_eq!(event, "openwindow>>1a2b");
            assert_eq!(args, "1a2b");
        }
        other => panic!("unexpected {:?}", other),
    }
}

#[test]
fn address_is_checked_before_workspace_on_move() {
    assert_eq!(kind_of("movewindow>>zz"), ErrorKind::WindowAddressParsingError);
    assert_eq!(kind_of("openwindow>>zz"), ErrorKind::EventArgsParsingError);
}

#[test]
fn bad_workspace_names_are_args_errors() {
    assert_eq!(kind_of("workspace>>abc"), ErrorKind::EventArgsParsingError);
    assert_eq!(kind_of("workspace>>0"), ErrorKind::EventArgsParsingError);
    assert_eq!(kind_of("workspace>>11"), ErrorKind::EventArgsParsingError);
    assert_eq!(kind_of("workspace>>"), ErrorKind::EventArgsParsingError);
    assert_eq!(kind_of("openwindow>>1a2b,x"), ErrorKind::EventArgsParsingError);
    assert_eq!(kind_of("workspace>>99999999999999999999999"), ErrorKind::EventArgsParsingError);
}

#[test]
fn workspace_edges_are_accepted() {
    assert_eq!(
        parse_hyprland_event("workspace>>1").unwrap(),
        Some(HyprlandWorkspaceEvent::ChangeActiveWorkspace { new_workspace_id: 0 })
    );
    assert_eq!(
        parse_hyprland_event("workspace>>10").unwrap(),
        Some(HyprlandWorkspaceEvent::ChangeActiveWorkspace { new_workspace_id: 9 })
    );
    assert_eq!(
        parse_hyprland_event("workspace>>+4").unwrap(),
        Some(HyprlandWorkspaceEvent::ChangeActiveWorkspace { new_workspace_id: 3 })
    );
}

#[test]
fn only_the_first_argument_list_counts() {
    assert_eq!(
        parse_hyprland_event("workspace>>3>>7").unwrap(),
        Some(HyprlandWorkspaceEvent::ChangeActiveWorkspace { new_workspace_id: 2 })
    );
    assert_eq!(
        parse_hyprland_event("closewindow>>ff,extra").unwrap(),
        Some(HyprlandWorkspaceEvent::CloseWindow { window_address: 0xff })
    );
}

#[test]
fn hex_addresses_follow_from_str_radix() {
    assert_eq!(
        parse_hyprland_event("closewindow>>ffffffffffffffff").unwrap(),
        Some(HyprlandWorkspaceEvent::CloseWindow { window_address: u64::MAX })
    );
    assert_eq!(
        parse_hyprland_event("closewindow>>+10").unwrap(),
        Some(HyprlandWorkspaceEvent::CloseWindow { window_address: 0x10 })
    );
    assert_eq!(kind_of("closewindow>>10000000000000000"), ErrorKind::WindowAddressParsingError);
    assert_eq!(kind_of("closewindow>>+"), ErrorKind::WindowAddressParsingError);
    assert_eq!(kind_of("closewindow>>-1"), ErrorKind::WindowAddressParsingError);
    assert_eq!(kind_of("closewindow>>0x10"), ErrorKind::WindowAddressParsingError);
}

#[test]
fn bare_event_names_have_no_arguments() {
    for line in ["workspace", "openwindow", "closewindow", "movewindow"] {
        match parse_hyprland_event(line) {
            Err(HyprlandCommunicationError::EventArgsParsingError { event, args }) => {
                assert_eq!(event, line);
                assert_eq!(args, "");
            }
            other => panic!("unexpected {:?} for {:?}", other, line),
        }
    }
}

#[test]
fn empty_argument_lists_have_no_arguments() {
    for line in ["workspace>>", "openwindow>>", "closewindow>>", "movewindow>>", "closewindow>>>>ff"] {
        match parse_hyprland_event(line) {
            Err(HyprlandCommunicationError::EventArgsParsingError { event, args }) => {
                assert_eq!(event, line);
                assert_eq!(args, "");
            }
            other => panic!("unexpected {:?} for {:?}", other, line),
        }
    }
    assert_eq!(kind_of("closewindow>>,1"), ErrorKind::WindowAddressParsingError);
    assert_eq!(parse_hyprland_event("somethingelse").unwrap(), None);
}
