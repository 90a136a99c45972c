use cpdb_rs::types::PrinterState;

#[test]
fn test_printer_state_conversions() {
    assert_eq!(PrinterState::from("idle"), PrinterState::Idle);
    assert_eq!(PrinterState::from("processing"), PrinterState::Processing);
    assert_eq!(PrinterState::from("stopped"), PrinterState::Stopped);
    assert_eq!(
        PrinterState::from("paused"),
        PrinterState::Unknown("paused".to_string())
    );

    assert_eq!(PrinterState::from("idle".to_string()), PrinterState::Idle);
    assert_eq!(
        PrinterState::from("testing".to_string()),
        PrinterState::Unknown("testing".to_string())
    );
}

#[test]
fn test_printer_state_display() {
    assert_eq!(PrinterState::Idle.as_str(), "idle");
    assert_eq!(PrinterState::Processing.as_str(), "processing");
    assert_eq!(PrinterState::Stopped.as_str(), "stopped");
    assert_eq!(
        PrinterState::Unknown("offline".to_string()).as_str(),
        "offline"
    );
}

#[test]
fn state_name_round_trip() {
    for s in ["idle", "processing", "stopped", "paused", "", "IDLE"] {
        assert_eq!(PrinterState::from(s).as_str(), s);
        assert_eq!(PrinterState::from_name(s), PrinterState::from(s.to_string()));
    }
    assert!(PrinterState::Idle.is_idle());
    assert!(!PrinterState::Unknown("idle ".to_string()).is_idle());
}
