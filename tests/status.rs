use gitpod::status::{parse_status, WorkspaceStatus};

#[test]
fn parses_each_status_name() {
    assert_eq!(parse_status("Creating"), WorkspaceStatus::Creating);
    assert_eq!(parse_status("Running"), WorkspaceStatus::Running);
    assert_eq!(parse_status("Stopping"), WorkspaceStatus::Stopping);
    assert_eq!(parse_status("Stopped"), WorkspaceStatus::Stopped);
    assert_eq!(parse_status("Failed"), WorkspaceStatus::Failed);
}

#[test]
fn unknown_status_reads_as_failed() {
    assert_eq!(parse_status("running"), WorkspaceStatus::Failed);
    assert_eq!(parse_status(""), WorkspaceStatus::Failed);
    assert_eq!(parse_status("Runningx"), WorkspaceStatus::Failed);
}

#[test]
fn names_round_trip() {
    for s in [
        WorkspaceStatus::Creating,
        WorkspaceStatus::Running,
        WorkspaceStatus::Stopping,
        WorkspaceStatus::Stopped,
        WorkspaceStatus::Failed,
    ] {
        assert_eq!(parse_status(s.name()), s);
    }
    assert_eq!(WorkspaceStatus::Stopping.name(), "Stopping");
}
