use mcli::command::{command_from, match_command};
use mcli::{Cli, CommandError, Commands};

fn args(a: &[&str]) -> Vec<String> {
    a.iter().map(|s| s.to_string()).collect()
}

#[test]
fn routes_start_and_stop() {
    assert_eq!(
        match_command(&args(&["start", "mc", "1"])),
        Ok(Commands::Start { name: "mc".to_string(), id: "1".to_string() })
    );
    assert_eq!(
        match_command(&args(&["stop", "mc", "2", "extra"])),
        Ok(Commands::Stop { name: "mc".to_string(), id: "2".to_string() })
    );
}

#[test]
fn routes_exec_with_trailing_tokens() {
    assert_eq!(
        match_command(&args(&["exec", "mc", "1", "say", "hello"])),
        Ok(Commands::Exec {
            name: "mc".to_string(),
            id: "1".to_string(),
            cmd: vec!["say".to_string(), "hello".to_string()],
        })
    );
    assert_eq!(
        match_command(&args(&["exec", "mc", "1"])),
        Ok(Commands::Exec { name: "mc".to_string(), id: "1".to_string(), cmd: vec![] })
    );
}

#[test]
fn routes_stream_status_and_list() {
    let o = Commands::Output { name: "mc".to_string(), id: "1".to_string() };
    assert_eq!(match_command(&args(&["output", "mc", "1"])), Ok(o.clone()));
    assert_eq!(match_command(&args(&["fullout", "mc", "1"])), Ok(o));
    let c = Commands::CleanOutput { name: "mc".to_string(), id: "1".to_string() };
    assert_eq!(match_command(&args(&["out", "mc", "1"])), Ok(c.clone()));
    assert_eq!(match_command(&args(&["clean-output", "mc", "1"])), Ok(c));
    assert_eq!(
        match_command(&args(&["status", "mc", "1"])),
        Ok(Commands::Status { name: "mc".to_string(), id: "1".to_string() })
    );
    assert_eq!(
        match_command(&args(&["list", "mc"])),
        Ok(Commands::List { name: "mc".to_string() })
    );
}

#[test]
fn too_few_arguments_for_every_subcommand() {
    for tok in ["start", "stop", "exec", "output", "fullout", "status", "new", "out", "clean-output"] {
        assert_eq!(match_command(&args(&[tok])), Err(CommandError::TooFewArguments));
        assert_eq!(match_command(&args(&[tok, "mc"])), Err(CommandError::TooFewArguments));
    }
    assert_eq!(match_command(&args(&["list"])), Err(CommandError::TooFewArguments));
}

#[test]
fn unknown_subcommand() {
    assert_eq!(match_command(&args(&["launch", "mc", "1"])), Err(CommandError::NoSuchCommand));
    assert_eq!(match_command(&args(&["Start", "mc", "1"])), Err(CommandError::NoSuchCommand));
    assert_eq!(match_command(&args(&[])), Err(CommandError::NoSuchCommand));
}

#[test]
fn new_without_flags() {
    assert_eq!(
        match_command(&args(&["new", "mc", "1"])),
        Ok(Commands::New {
            name: "mc".to_string(),
            id: "1".to_string(),
            path: None,
            port: None,
            version: None,
            server_type: None,
        })
    );
}

#[test]
fn new_with_every_flag() {
    assert_eq!(
        match_command(&args(&[
            "new", "mc", "1", "-p", "25565", "-d", "/srv/mc", "-v", "1.20", "--server-type", "paper",
        ])),
        Ok(Commands::New {
            name: "mc".to_string(),
            id: "1".to_string(),
            path: Some("/srv/mc".to_string()),
            port: Some(25565),
            version: Some("1.20".to_string()),
            server_type: Some("paper".to_string()),
        })
    );
}

#[test]
fn new_later_flag_wins() {
    assert_eq!(
        match_command(&args(&["new", "mc", "1", "--port", "1", "-p", "65535"])),
        Ok(Commands::New {
            name: "mc".to_string(),
            id: "1".to_string(),
            path: None,
            port: Some(65535),
            version: None,
            server_type: None,
        })
    );
}

#[test]
fn new_flag_errors() {
    assert_eq!(match_command(&args(&["new", "mc", "1", "-p"])), Err(CommandError::TooFewArguments));
    assert_eq!(match_command(&args(&["new", "mc", "1", "-p", "65536"])), Err(CommandError::InvalidPort));
    assert_eq!(match_command(&args(&["new", "mc", "1", "-p", "80a"])), Err(CommandError::InvalidPort));
    assert_eq!(match_command(&args(&["new", "mc", "1", "-p", ""])), Err(CommandError::InvalidPort));
    assert_eq!(match_command(&args(&["new", "mc", "1", "-x", "y"])), Err(CommandError::UnexpectedArgument));
}

#[test]
fn command_from_an_offset() {
    assert_eq!(
        command_from(&args(&["ignored", "list", "mc"]), 1),
        Ok(Commands::List { name: "mc".to_string() })
    );
    assert_eq!(command_from(&args(&["list"]), 1), Err(CommandError::NoSuchCommand));
}

#[test]
fn cli_counts_debug_flags() {
    assert_eq!(
        Cli::parse_from(&args(&["-d", "--debug", "list", "mc"])),
        Ok(Cli { debug: 2, command: Some(Commands::List { name: "mc".to_string() }) })
    );
    assert_eq!(Cli::parse_from(&args(&[])), Ok(Cli { debug: 0, command: None }));
    assert_eq!(Cli::parse_from(&args(&["-d"])), Ok(Cli { debug: 1, command: None }));
    assert_eq!(Cli::parse_from(&args(&["-d", "nope"])), Err(CommandError::NoSuchCommand));
}

#[test]
fn cli_debug_count_saturates() {
    let many: Vec<String> = (0..300).map(|_| "-d".to_string()).collect();
    assert_eq!(Cli::parse_from(&many), Ok(Cli { debug: 255, command: None }));
}

#[test]
fn error_messages() {
    assert_eq!(CommandError::NoSuchCommand.message(), "Command not found");
    assert_eq!(CommandError::TooFewArguments.message(), "Too few arguments");
    assert_eq!(CommandError::InvalidPort.message(), "Invalid port");
    assert_eq!(CommandError::UnexpectedArgument.message(), "Unexpected argument");
}
