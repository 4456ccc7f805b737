use widgets::battery_display::{percent_from_capacity, state_from_status, BatteryDisplay, BatteryMessage, State};

#[test]
fn status_lines_map_to_states() {
    assert_eq!(state_from_status("Charging"), State::Charging);
    assert_eq!(state_from_status("Discharging"), State::Discharging);
    assert_eq!(state_from_status("Not charging"), State::Full);
    assert_eq!(state_from_status("Full"), State::Full);
    assert_eq!(state_from_status("Empty"), State::Empty);
    assert_eq!(state_from_status("Unknown"), State::Other);
    assert_eq!(state_from_status("charging"), State::Other);
}

#[test]
fn capacity_is_a_decimal_number() {
    assert_eq!(percent_from_capacity("57"), Some(57));
    assert_eq!(percent_from_capacity("4294967295"), Some(u32::MAX));
    assert_eq!(percent_from_capacity("4294967296"), None);
    assert_eq!(percent_from_capacity("abc"), None);
    assert_eq!(percent_from_capacity(""), None);
}

#[test]
fn new_reads_both_files() {
    let d = BatteryDisplay::new("42", "Discharging").unwrap();
    assert_eq!(d.state(), State::Discharging);
    assert_eq!(d.percent_charge(), 42);
    assert!(BatteryDisplay::new("x", "Full").is_none());
}

#[test]
fn icons_follow_the_charge() {
    let icon = |c: &str, s: &str| BatteryDisplay::new(c, s).unwrap().icon();
    assert_eq!(icon("5", "Charging"), '\u{f089f}');
    assert_eq!(icon("10", "Charging"), '\u{f089f}');
    assert_eq!(icon("11", "Charging"), '\u{f089c}');
    assert_eq!(icon("99", "Charging"), '\u{f008b}');
    assert_eq!(icon("100", "Charging"), '\u{f0085}');
    assert_eq!(icon("0", "Discharging"), '\u{f008e}');
    assert_eq!(icon("55", "Discharging"), '\u{f007d}');
    assert_eq!(icon("100", "Discharging"), '\u{f0079}');
    assert_eq!(icon("50", "Empty"), '\u{f008e}');
    assert_eq!(icon("50", "Full"), '\u{f0079}');
    assert_eq!(icon("50", "Unknown"), '?');
}

#[test]
fn update_takes_new_readings_only() {
    let mut d = BatteryDisplay::new("42", "Discharging").unwrap();
    d.update(BatteryMessage::NewState(State::Charging, 80));
    assert_eq!(d.state(), State::Charging);
    assert_eq!(d.percent_charge(), 80);
    d.update(BatteryMessage::Error);
    assert_eq!(d.state(), State::Charging);
    assert_eq!(d.percent_charge(), 80);
}
