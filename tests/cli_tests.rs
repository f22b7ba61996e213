use stelliberty_service::cli::{parse_command, CliCommand};

fn args(words: &[&str]) -> Vec<String> {
    words.iter().map(|w| w.to_string()).collect()
}

#[test]
fn commands() {
    assert!(matches!(parse_command(&args(&["svc"])), CliCommand::RunService));
    assert!(matches!(parse_command(&args(&[])), CliCommand::RunService));
    assert!(matches!(parse_command(&args(&["svc", "install"])), CliCommand::Install));
    assert!(matches!(parse_command(&args(&["svc", "uninstall"])), CliCommand::Uninstall));
    assert!(matches!(parse_command(&args(&["svc", "start"])), CliCommand::Start));
    assert!(matches!(parse_command(&args(&["svc", "stop"])), CliCommand::Stop));
    assert!(matches!(parse_command(&args(&["svc", "status"])), CliCommand::Status));
    assert!(matches!(parse_command(&args(&["svc", "logs"])), CliCommand::FollowLogs));
    match parse_command(&args(&["svc", "restart"])) {
        CliCommand::Unknown { command } => assert_eq!(command, "restart"),
        _ => panic!("expected Unknown"),
    }
}

#[test]
fn log_counts() {
    assert!(matches!(
        parse_command(&args(&["svc", "logs", "25"])),
        CliCommand::ShowLogs { lines: 25, invalid_count: false }
    ));
    assert!(matches!(
        parse_command(&args(&["svc", "logs", "many"])),
        CliCommand::ShowLogs { lines: 1000, invalid_count: true }
    ));
    assert!(matches!(
        parse_command(&args(&["svc", "logs", "-3"])),
        CliCommand::ShowLogs { lines: 1000, invalid_count: true }
    ));
}
