//! The setup lifecycle over the recording port: install, re-install,
//! version extraction, detection, and reset.

use hey_cli::setup_script::SetupScript;
use hey_cli::reset::Reset;
use hey_cli::utils::{Error, Port, PortTrait, Shell, ShellName, State};

const FISH_SETUP_PATH: &str = "/home/tester/.config/fish/functions/setup_hey_cli.fish";
const FISH_CONFIG_PATH: &str = "/home/tester/.config/fish/config.fish";
const FISH_SOURCE_LINE: &str = "source ~/.config/fish/functions/setup_hey_cli.fish";
const ZSH_SETUP_PATH: &str = "/home/tester/.config/zsh/functions/setup_hey_cli.zsh";
const ZSHRC_PATH: &str = "/home/tester/.zshrc";

fn install(port: &mut Port) {
    let r: Result<(), Error> = SetupScript(None).next(port);
    assert!(r.is_ok());
}

#[test]
fn install_writes_assets_and_reference_lines() {
    let mut port = Port::new();
    port.set_env_var("HOME", "/home/tester");
    install(&mut port);
    let fish_asset = port.file_content(FISH_SETUP_PATH).expect("fish asset written");
    assert!(fish_asset.contains("set hey_setup_version 0.1.0"));
    let fish_config = port.file_content(FISH_CONFIG_PATH).expect("fish config written");
    assert_eq!(fish_config.matches(FISH_SOURCE_LINE).count(), 1);
    let zshrc = port.file_content(ZSHRC_PATH).expect("zshrc written");
    assert_eq!(zshrc.matches("fpath=(~/.config/zsh/functions $fpath)").count(), 1);
    assert_eq!(zshrc.matches("source ~/.config/zsh/functions/setup_hey_cli.zsh").count(), 1);
    assert_eq!(zshrc.matches("autoload -Uz hey").count(), 1);
    assert!(port.file_content(ZSH_SETUP_PATH).is_some());
}

#[test]
fn install_twice_keeps_single_reference_line() {
    let mut port = Port::new();
    port.set_env_var("HOME", "/home/tester");
    install(&mut port);
    install(&mut port);
    let fish_config = port.file_content(FISH_CONFIG_PATH).expect("fish config written");
    assert_eq!(fish_config.matches(FISH_SOURCE_LINE).count(), 1);
    let zshrc = port.file_content(ZSHRC_PATH).expect("zshrc written");
    assert_eq!(zshrc.matches("source ~/.config/zsh/functions/setup_hey_cli.zsh").count(), 1);
}

#[test]
fn install_respects_existing_configuration() {
    let mut port = Port::new();
    port.set_env_var("HOME", "/home/tester");
    port.set_file(FISH_CONFIG_PATH, "set -x EDITOR vim\n");
    install(&mut port);
    let fish_config = port.file_content(FISH_CONFIG_PATH).expect("fish config written");
    assert!(fish_config.starts_with("set -x EDITOR vim\n"));
    assert_eq!(fish_config.matches(FISH_SOURCE_LINE).count(), 1);
}

#[test]
fn reset_removes_installation() {
    let mut port = Port::new();
    port.set_env_var("HOME", "/home/tester");
    install(&mut port);
    let r: Result<(), Error> = Reset.next(&mut port);
    assert!(r.is_ok());
    assert!(port.file_content(FISH_SETUP_PATH).is_none());
    assert!(port.file_content(ZSH_SETUP_PATH).is_none());
    let fish_config = port.file_content(FISH_CONFIG_PATH).expect("fish config kept");
    assert_eq!(fish_config.matches(FISH_SOURCE_LINE).count(), 0);
    let rendered = port.to_stdout_format();
    assert!(rendered.contains("Reset completed successfully"));
}

#[test]
fn reset_notes_missing_setup_files() {
    let mut port = Port::new();
    port.set_env_var("HOME", "/home/tester");
    let r: Result<(), Error> = Reset.next(&mut port);
    assert!(r.is_ok());
    let rendered = port.to_stdout_format();
    assert!(rendered.contains("Note: Could not remove setup file ("));
    assert!(rendered.contains("Reset completed successfully"));
}

#[test]
fn expected_setup_version_follows_the_markers() {
    let fish = Shell { setup_version: "whatever".to_string(), name: ShellName::Fish };
    assert_eq!(fish.expected_setup_version().as_deref(), Some("0.1.0"));
    let zsh = Shell { setup_version: "whatever".to_string(), name: ShellName::Zsh };
    assert_eq!(zsh.expected_setup_version().as_deref(), Some("0.1.0"));
    let bash = Shell { setup_version: "whatever".to_string(), name: ShellName::Bash };
    assert_eq!(bash.expected_setup_version(), None);
}

#[test]
fn setup_script_content_exists_for_supported_shells() {
    assert!(ShellName::Fish.setup_script_content().is_some());
    assert!(ShellName::Zsh.setup_script_content().is_some());
    assert!(ShellName::Bash.setup_script_content().is_none());
    assert!(ShellName::PowerShell.setup_script_content().is_none());
}

#[test]
fn detect_prefers_version_variables_in_registry_order() {
    let mut port = Port::new();
    port.set_env_var("FISH_VERSION", "3.7.0");
    port.set_env_var("SHELL", "/bin/bash");
    let r = SetupScript::detect(&port);
    assert!(matches!(r, Ok(ShellName::Fish)));
}

#[test]
fn detect_falls_back_to_the_default_shell_path() {
    let mut port = Port::new();
    port.set_env_var("SHELL", "/usr/bin/zsh");
    let r = SetupScript::detect(&port);
    assert!(matches!(r, Ok(ShellName::Zsh)));

    let mut bare = Port::new();
    bare.set_env_var("SHELL", "pwsh");
    let r2 = SetupScript::detect(&bare);
    assert!(matches!(r2, Ok(ShellName::PowerShell)));
}

#[test]
fn detect_fails_with_no_supported_shell() {
    let mut port = Port::new();
    port.set_env_var("SHELL", "/bin/tcsh");
    let r = SetupScript::detect(&port);
    let error = match r {
        Err(e) => e,
        Ok(_) => panic!("detection must fail without a supported shell"),
    };
    assert_eq!(error.message(), "no supported shell detected");
}
