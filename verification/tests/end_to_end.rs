//! End-to-end runs of the pipeline over the in-memory recording port.

use hey_cli::parse_args::ParseArgs;
use hey_cli::run;
use hey_cli::utils::{Port, PortTrait};
use hey_cli::CLI_VERSION;

fn ask_words() -> Vec<String> {
    vec![
        "print".to_string(),
        "working".to_string(),
        "directory".to_string(),
    ]
}

const INSTALL_BLOCK: &str = "Installing setup script for shell: fish
Installing setup script for shell: bash
bash shell is not yet supported
Installing setup script for shell: zsh
Installing setup script for shell: power_shell
power_shell shell is not yet supported
Setup script installed successfully
Please open new terminal session
hey-cli-prompt-start
echo \"print working directory\"";

#[test]
fn version_flag() {
    let mut port = Port::new();
    let res = run(
        ParseArgs {
            version: true,
            ..ParseArgs::default()
        },
        &mut port,
    );
    assert!(res.is_ok());
    let stdout = port.to_stdout_format();
    assert_eq!(stdout, format!("hey-cli {VERSION}", VERSION = CLI_VERSION));
}

#[test]
fn version_flag_shell_name() {
    let mut port = Port::new();
    let res = run(
        ParseArgs {
            version: true,
            shell_name: Some("fish".to_string()),
            ..ParseArgs::default()
        },
        &mut port,
    );
    assert!(res.is_ok());
    let stdout = port.to_stdout_format();
    assert_eq!(stdout, format!("hey-cli {VERSION}", VERSION = CLI_VERSION));
}

#[test]
fn version_flag_setup_version() {
    let mut port = Port::new();
    let res = run(
        ParseArgs {
            version: true,
            setup_version: Some("1.0.0".to_string()),
            ..ParseArgs::default()
        },
        &mut port,
    );
    assert!(res.is_ok());
    let stdout = port.to_stdout_format();
    assert_eq!(stdout, format!("hey-cli {VERSION}", VERSION = CLI_VERSION));
}

#[test]
fn version_flag_shell_name_setup_version() {
    let mut port = Port::new();
    let res = run(
        ParseArgs {
            version: true,
            shell_name: Some("fish".to_string()),
            setup_version: Some("1.0.0".to_string()),
            ..ParseArgs::default()
        },
        &mut port,
    );
    assert!(res.is_ok());
    let stdout = port.to_stdout_format();
    assert_eq!(
        stdout,
        format!("hey-cli {VERSION}\nsetup-script fish@1.0.0", VERSION = CLI_VERSION)
    );
}

#[test]
fn ask_no_shell_no_supported_shell_listed() {
    let mut port = Port::new();
    port.set_env_var("HOME", "/home/tester");
    let res = run(
        ParseArgs {
            ask: ask_words(),
            ..ParseArgs::default()
        },
        &mut port,
    );
    assert!(res.is_ok());
    let stdout = port.to_stdout_format();
    assert_eq!(
        stdout,
        format!("Setup script not installed\n{INSTALL_BLOCK}", INSTALL_BLOCK = INSTALL_BLOCK)
    );
}

#[test]
fn ask_no_shell_inside_fish_and_zsh_shells() {
    let mut port = Port::new();
    port.set_env_var("HOME", "/home/tester");
    port.set_env_var("FISH_VERSION", "3.7.0");
    port.set_env_var("ZSH_VERSION", "5.9");
    port.set_env_var("SHELL", "/usr/bin/fish");
    let res = run(
        ParseArgs {
            ask: ask_words(),
            ..ParseArgs::default()
        },
        &mut port,
    );
    assert!(res.is_ok());
    let stdout = port.to_stdout_format();
    assert_eq!(
        stdout,
        format!("Setup script not installed\n{INSTALL_BLOCK}", INSTALL_BLOCK = INSTALL_BLOCK)
    );
}

#[test]
fn ask_with_shell_with_different_setup_version() {
    let mut port = Port::new();
    port.set_env_var("HOME", "/home/tester");
    let res = run(
        ParseArgs {
            shell_name: Some("fish".to_string()),
            setup_version: Some("some-different-version".to_string()),
            ask: ask_words(),
            ..ParseArgs::default()
        },
        &mut port,
    );
    assert!(res.is_ok());
    let stdout = port.to_stdout_format();
    assert_eq!(
        stdout,
        format!("Setup script outdated\n{INSTALL_BLOCK}", INSTALL_BLOCK = INSTALL_BLOCK)
    );
}

#[test]
fn ask_with_shell_invalid_ask() {
    let long_ask = "fish ".repeat(21);
    let invalid_asks = vec![
        (
            "print\nworking\ndirectory",
            "Invalid ask: new line character is not allowed",
        ),
        (
            long_ask.trim(),
            "Invalid ask: max length of 100 characters reached",
        ),
    ];
    for (ask, error_message) in invalid_asks {
        let mut port = Port::new();
        port.set_env_var("HOME", "/home/tester");
        let res = run(
            ParseArgs {
                shell_name: Some("fish".to_string()),
                setup_version: Some("0.1.0".to_string()),
                ask: ask.split(" ").map(|s| s.to_string()).collect(),
                ..ParseArgs::default()
            },
            &mut port,
        );
        let error = match res {
            Err(e) => e,
            Ok(()) => panic!("an invalid ask must fail"),
        };
        assert_eq!(error.message(), error_message);
    }
}

#[test]
fn ask_with_shell() {
    let mut port = Port::new();
    port.set_env_var("HOME", "/home/tester");
    let res = run(
        ParseArgs {
            shell_name: Some("fish".to_string()),
            setup_version: Some("0.1.0".to_string()),
            ask: ask_words(),
            ..ParseArgs::default()
        },
        &mut port,
    );
    assert!(res.is_ok());
    let stdout = port.to_stdout_format();
    assert_eq!(
        stdout,
        format!("\nhey-cli-prompt-start\necho \"print working directory\"")
    );
}

#[test]
fn ask_without_home_directory_fails() {
    let mut port = Port::new();
    let res = run(
        ParseArgs {
            ask: ask_words(),
            ..ParseArgs::default()
        },
        &mut port,
    );
    let error = match res {
        Err(e) => e,
        Ok(()) => panic!("an install without a home directory must fail"),
    };
    assert_eq!(error.message(), "Could not find home directory");
}

#[test]
fn invalid_shell_name_fails() {
    let mut port = Port::new();
    let res = run(
        ParseArgs {
            shell_name: Some("tcsh".to_string()),
            setup_version: Some("0.1.0".to_string()),
            ask: ask_words(),
            ..ParseArgs::default()
        },
        &mut port,
    );
    let error = match res {
        Err(e) => e,
        Ok(()) => panic!("an unknown shell name must fail"),
    };
    assert_eq!(error.message(), "Invalid shell name");
}

#[test]
fn get_stdout_extracts_segment_before_sentinel() {
    let mut port = Port::new();
    let res = run(
        ParseArgs {
            get_stdout: true,
            ask: vec![
                "some".to_string(),
                "output".to_string(),
                "hey-cli-prompt-start".to_string(),
                "ls".to_string(),
            ],
            ..ParseArgs::default()
        },
        &mut port,
    );
    assert!(res.is_ok());
    assert_eq!(port.to_stdout_format(), "some output");
}

#[test]
fn get_prompt_extracts_segment_after_sentinel() {
    let mut port = Port::new();
    let res = run(
        ParseArgs {
            get_prompt: true,
            ask: vec![
                "some".to_string(),
                "output".to_string(),
                "hey-cli-prompt-start".to_string(),
                "ls".to_string(),
                "-la".to_string(),
            ],
            ..ParseArgs::default()
        },
        &mut port,
    );
    assert!(res.is_ok());
    assert_eq!(port.to_stdout_format(), "ls -la");
}

#[test]
fn get_prompt_without_sentinel_is_empty() {
    let mut port = Port::new();
    let res = run(
        ParseArgs {
            get_prompt: true,
            ask: vec!["no".to_string(), "marker".to_string()],
            ..ParseArgs::default()
        },
        &mut port,
    );
    assert!(res.is_ok());
    assert_eq!(port.to_stdout_format(), "");
}

#[test]
fn rendered_output_splits_back_at_the_sentinel() {
    let mut port = Port::new();
    port.log("first line");
    port.log("second line");
    port.set_final_prompt("ls -la".to_string());
    let rendered = port.to_stdout_format();

    let mut stdout_port = Port::new();
    let res = run(
        ParseArgs {
            get_stdout: true,
            ask: vec![rendered.clone()],
            ..ParseArgs::default()
        },
        &mut stdout_port,
    );
    assert!(res.is_ok());
    assert_eq!(stdout_port.to_stdout_format(), "first line\nsecond line");

    let mut prompt_port = Port::new();
    let res2 = run(
        ParseArgs {
            get_prompt: true,
            ask: vec![rendered],
            ..ParseArgs::default()
        },
        &mut prompt_port,
    );
    assert!(res2.is_ok());
    assert_eq!(prompt_port.to_stdout_format(), "ls -la");
}
