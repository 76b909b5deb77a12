//! The ask validation rules and the argument classification on concrete
//! values, at the exact boundaries.

use hey_cli::check_ask::CheckAsk;
use hey_cli::check_setup::CheckSetup;
use hey_cli::parse_args::ParseArgs;
use hey_cli::utils::{Error, Port, PortTrait, Shell, ShellName, State};
use hey_cli::what_to_do::{WhatToDoAfterCheckSetup, WhatToDoAfterParseArgs};

fn validate(ask: &str) -> Result<(), String> {
    let mut port = Port::new();
    match (CheckAsk { ask: ask.to_string() }).next(&mut port) {
        Ok(_) => Ok(()),
        Err(e) => Err(e.message()),
    }
}

#[test]
fn ask_with_line_break_is_rejected_regardless_of_length() {
    assert_eq!(
        validate("a\nb"),
        Err("Invalid ask: new line character is not allowed".to_string())
    );
    let long_with_newline = format!("{}\n{}", "x".repeat(90), "y".repeat(90));
    assert_eq!(
        validate(&long_with_newline),
        Err("Invalid ask: new line character is not allowed".to_string())
    );
    assert_eq!(
        validate("\n"),
        Err("Invalid ask: new line character is not allowed".to_string())
    );
}

#[test]
fn ask_over_the_length_bound_is_rejected() {
    let over = "x".repeat(101);
    assert_eq!(
        validate(&over),
        Err("Invalid ask: max length of 100 characters reached".to_string())
    );
    let far_over = "x".repeat(500);
    assert_eq!(
        validate(&far_over),
        Err("Invalid ask: max length of 100 characters reached".to_string())
    );
}

#[test]
fn ask_within_the_bound_is_accepted() {
    assert_eq!(validate(""), Ok(()));
    assert_eq!(validate("print working directory"), Ok(()));
    let exactly_100 = "x".repeat(100);
    assert_eq!(validate(&exactly_100), Ok(()));
}

#[test]
fn setup_check_proceeds_only_on_an_exact_version_match() {
    // exact match: straight to ask validation, nothing logged
    let mut port = Port::new();
    let current = CheckSetup {
        shell: Some(Shell { setup_version: "0.1.0".to_string(), name: ShellName::Fish }),
        ask: "ask".to_string(),
    };
    match current.next(&mut port) {
        Ok(WhatToDoAfterCheckSetup::CheckAsk(check_ask)) => assert_eq!(check_ask.ask, "ask"),
        _ => panic!("a matching version must proceed to ask validation"),
    }
    assert_eq!(port.to_stdout_format(), "");

    // any other string triggers an install
    for stale in ["0.0.9", "0.1.1", "garbled", ""] {
        let mut port = Port::new();
        let outdated = CheckSetup {
            shell: Some(Shell { setup_version: stale.to_string(), name: ShellName::Fish }),
            ask: "ask".to_string(),
        };
        match outdated.next(&mut port) {
            Ok(WhatToDoAfterCheckSetup::SetupScript(s)) => assert_eq!(s.0, Some(ShellName::Fish)),
            _ => panic!("a version mismatch must trigger an install"),
        }
        assert_eq!(port.to_stdout_format(), "Setup script outdated");
    }

    // no shell declared: not installed
    let mut port = Port::new();
    let unknown = CheckSetup { shell: None, ask: "ask".to_string() };
    match unknown.next(&mut port) {
        Ok(WhatToDoAfterCheckSetup::SetupScript(s)) => assert_eq!(s.0, None),
        _ => panic!("no shell must trigger an install"),
    }
    assert_eq!(port.to_stdout_format(), "Setup script not installed");
}

#[test]
fn reset_flag_wins_over_version_flag() {
    let mut port = Port::new();
    let args = ParseArgs { reset: true, version: true, ..ParseArgs::default() };
    match args.next(&mut port) {
        Ok(WhatToDoAfterParseArgs::Reset(_)) => {},
        _ => panic!("the reset flag must win"),
    }
}

#[test]
fn shell_flags_only_count_when_both_are_given() {
    let mut port = Port::new();
    let args = ParseArgs {
        shell_name: Some("fish".to_string()),
        ask: vec!["hi".to_string()],
        ..ParseArgs::default()
    };
    match args.next(&mut port) {
        Ok(WhatToDoAfterParseArgs::CheckSetup(check_setup)) => {
            assert!(check_setup.shell.is_none());
            assert_eq!(check_setup.ask, "hi");
        },
        _ => panic!("the normal flow must be selected"),
    }
}

#[test]
fn shell_name_parsing_follows_the_registry() {
    assert_eq!(ShellName::from_name("fish"), Some(ShellName::Fish));
    assert_eq!(ShellName::from_name("bash"), Some(ShellName::Bash));
    assert_eq!(ShellName::from_name("zsh"), Some(ShellName::Zsh));
    assert_eq!(ShellName::from_name("power_shell"), Some(ShellName::PowerShell));
    assert_eq!(ShellName::from_name("powershell"), None);
    assert_eq!(ShellName::from_name("Fish"), None);
    assert_eq!(ShellName::from_name(""), None);
}

#[test]
fn display_names_are_snake_case() {
    assert_eq!(ShellName::Fish.display_name(), "fish");
    assert_eq!(ShellName::PowerShell.display_name(), "power_shell");
}

#[test]
fn error_messages_name_their_cause() {
    assert_eq!(
        Error::ShellNotSupported(ShellName::Bash).message(),
        "bash shell is not yet supported"
    );
    assert_eq!(Error::HomeDirNotFound.message(), "Could not find home directory");
    assert_eq!(Error::Io("disk full".to_string()).message(), "disk full");
    assert_eq!(Error::Remote("timeout".to_string()).message(), "timeout");
}

#[test]
fn rendering_joins_logs_and_appends_the_sentinel() {
    let mut port = Port::new();
    port.log("first");
    port.log("second");
    assert_eq!(port.to_stdout_format(), "first\nsecond");
    port.set_final_prompt("ls -la".to_string());
    assert_eq!(
        port.to_stdout_format(),
        "first\nsecond\nhey-cli-prompt-start\nls -la"
    );
}
