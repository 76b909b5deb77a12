//! A command-line assistant workflow engine: the user states an intent in
//! natural language (an "ask"), and a multi-stage pipeline validates it,
//! gathers machine context, obtains a generated shell command from a remote
//! service, and manages per-shell integration scripts.  Every observable
//! effect goes through a single port abstraction, so the whole pipeline can
//! be driven either by a production port (real files and network) or by an
//! in-memory recording port.

pub mod call_server;
pub mod check_ask;
pub mod check_setup;
pub mod common;
pub mod generate_context;
pub mod parse_args;
pub mod prompt;
pub mod reset;
pub mod setup_script;
pub mod text;
pub mod utils;
pub mod what_to_do;

use crate::check_ask::{CheckAsk, MAX_ASK_LENGTH};
use crate::check_setup::setup_is_current;
use crate::parse_args::{setup_version_report_spec, ParseArgs};
use crate::setup_script::{install_files_spec, install_log_line, install_logs_spec};
use crate::utils::{Error, PortModel, PortTrait, ShellName, State};
use crate::what_to_do::{
    WhatToDoAfterCheckSetup, WhatToDoAfterParseArgs, WhatToDoAfterParseArgsInternalAction,
};
use vstd::prelude::*;

verus! {

/// The version string this tool reports for itself.
pub const CLI_VERSION: &'static str = "0.1.0";

/// What the version branch logs: the tool's own version, and the installed
/// integration script's report where a shell was declared.
pub open spec fn version_logs_spec(args: ParseArgs) -> Seq<Seq<char>> {
    let base = seq!["hey-cli "@ + CLI_VERSION@];
    match args.declared_shell_spec() {
        Some(shell) => base.push("setup-script "@ + setup_version_report_spec(shell)),
        None => base,
    }
}

/// A shell was declared and its reported version matches the registry.
pub open spec fn setup_current_spec(args: ParseArgs) -> bool {
    match args.declared_shell_spec() {
        Some(shell) => setup_is_current(shell),
        None => false,
    }
}

/// The first log line of an install-triggering setup check.
pub open spec fn setup_header_spec(args: ParseArgs) -> Seq<char> {
    if args.declared_shell_spec() is None {
        "Setup script not installed"@
    } else {
        "Setup script outdated"@
    }
}

/// Drives the whole pipeline for one invocation: classifies the arguments,
/// then runs the selected branch against the port, short-circuiting to the
/// first failure.  In the normal flow, the setup is first brought up to date
/// (logging what was wrong), then the ask is validated, the context built,
/// the remote service asked, and its command published as the final result.
pub fn run<P: PortTrait>(args: ParseArgs, port: &mut P) -> (r: Result<(), Error>)
    ensures
        final(port).model().env == old(port).model().env,
        args.shell_arg_invalid() ==> (r matches Err(Error::InvalidShellName)
            && final(port).model() == old(port).model()),
        !args.shell_arg_invalid() && args.reset ==> {
            &&& final(port).model().final_prompt == old(port).model().final_prompt
            &&& (!old(port).model().env.contains_key("HOME"@) ==> (r matches Err(
                Error::HomeDirNotFound,
            ) && final(port).model().logs == old(port).model().logs.push(
                "Resetting hey-cli setup for all shells..."@,
            ) && final(port).model().files == old(port).model().files))
            &&& (r is Ok ==> old(port).model().env.contains_key("HOME"@) && exists|
                fish_removed: bool,
                fish_cause: Seq<char>,
                zsh_removed: bool,
                zsh_cause: Seq<char>,
            |
                crate::reset::reset_post(
                    old(port).model(),
                    final(port).model(),
                    fish_removed,
                    fish_cause,
                    zsh_removed,
                    zsh_cause,
                ))
        },
        !args.shell_arg_invalid() && !args.reset && args.version ==> r is Ok && final(port).model()
            == (PortModel {
            logs: old(port).model().logs + version_logs_spec(args),
            ..old(port).model()
        }),
        !args.shell_arg_invalid() && !args.reset && !args.version && args.get_stdout ==> r is Ok
            && final(port).model() == (PortModel {
            logs: old(port).model().logs.push(
                text::trim_seq(
                    text::before_first(args.joined_ask_spec(), "hey-cli-prompt-start"@),
                ),
            ),
            ..old(port).model()
        }),
        !args.shell_arg_invalid() && !args.reset && !args.version && !args.get_stdout
            && args.get_prompt ==> r is Ok && final(port).model() == (PortModel {
            logs: old(port).model().logs.push(
                if text::contains_seq(args.joined_ask_spec(), "hey-cli-prompt-start"@) {
                    text::trim_seq(
                        text::after_last(args.joined_ask_spec(), "hey-cli-prompt-start"@),
                    )
                } else {
                    Seq::<char>::empty()
                },
            ),
            ..old(port).model()
        }),
        !args.shell_arg_invalid() && !args.reset && !args.version && !args.get_stdout
            && !args.get_prompt ==> {
            let ask = args.joined_ask_spec();
            &&& (r matches Err(Error::AskContainsNewline) ==> ask.contains('\n'))
            &&& (r matches Err(Error::AskTooLong) ==> !ask.contains('\n') && ask.len()
                > MAX_ASK_LENGTH)
            &&& (setup_current_spec(args) ==> {
                &&& (ask.contains('\n') ==> r matches Err(Error::AskContainsNewline))
                &&& (!ask.contains('\n') && ask.len() > MAX_ASK_LENGTH ==> r matches Err(
                    Error::AskTooLong,
                ))
                &&& (r is Err ==> final(port).model() == old(port).model())
                &&& (r is Ok ==> !ask.contains('\n') && ask.len() <= MAX_ASK_LENGTH
                    && final(port).model().logs == old(port).model().logs
                    && final(port).model().files == old(port).model().files
                    && final(port).model().final_prompt is Some)
            })
            &&& (!setup_current_spec(args) ==> {
                &&& (!old(port).model().env.contains_key("HOME"@) ==> (r matches Err(
                    Error::HomeDirNotFound,
                ) && final(port).model().final_prompt == old(port).model().final_prompt
                    && final(port).model().logs == old(port).model().logs.push(
                    setup_header_spec(args),
                ).push(
                    install_log_line(ShellName::Fish),
                ) && final(port).model().files == old(port).model().files))
                &&& (r is Ok ==> old(port).model().env.contains_key("HOME"@) && !ask.contains(
                    '\n',
                ) && ask.len() <= MAX_ASK_LENGTH
                    && final(port).model().logs == old(port).model().logs.push(
                    setup_header_spec(args),
                ) + install_logs_spec()
                    && final(port).model().files == install_files_spec(
                    old(port).model().files,
                    old(port).model().env["HOME"@],
                ) && final(port).model().final_prompt is Some)
            })
        },
{
    let what_to_do = match args.next(port) {
        Ok(w) => w,
        Err(e) => {
            return Err(e);
        },
    };
    match what_to_do {
        WhatToDoAfterParseArgs::Reset(reset) => {
            match reset.next(port) {
                Ok(()) => Ok(()),
                Err(e) => Err(e),
            }
        },
        WhatToDoAfterParseArgs::PrintVersion { cli_version, setup_version } => {
            let version_line = String::from_str("hey-cli ").concat(cli_version.as_str());
            port.log(version_line.as_str());
            match setup_version {
                Some(report) => {
                    let report_line = String::from_str("setup-script ").concat(report.as_str());
                    port.log(report_line.as_str());
                    proof {
                        assert(port.model().logs =~= old(port).model().logs + version_logs_spec(
                            args,
                        ));
                    }
                },
                None => {
                    proof {
                        assert(port.model().logs =~= old(port).model().logs + version_logs_spec(
                            args,
                        ));
                    }
                },
            }
            Ok(())
        },
        WhatToDoAfterParseArgs::Internal { input, action } => {
            match action {
                WhatToDoAfterParseArgsInternalAction::GetStdout => {
                    let before = text::before_first_exec(input.as_str(), "hey-cli-prompt-start");
                    let trimmed = text::trim_exec(before.as_str());
                    port.log(trimmed.as_str());
                },
                WhatToDoAfterParseArgsInternalAction::GetPrompt => {
                    proof {
                        reveal_strlit("hey-cli-prompt-start");
                    }
                    if text::contains_substring(input.as_str(), "hey-cli-prompt-start") {
                        let after = text::after_last_exec(input.as_str(), "hey-cli-prompt-start");
                        let trimmed = text::trim_exec(after.as_str());
                        port.log(trimmed.as_str());
                        proof {
                            assert(port.model().logs =~= old(port).model().logs.push(
                                text::trim_seq(
                                    text::after_last(
                                        args.joined_ask_spec(),
                                        "hey-cli-prompt-start"@,
                                    ),
                                ),
                            ));
                        }
                    } else {
                        proof {
                            reveal_strlit("");
                            assert(""@ =~= Seq::<char>::empty());
                        }
                        port.log("");
                        proof {
                            assert(port.model().logs =~= old(port).model().logs.push(
                                Seq::<char>::empty(),
                            ));
                        }
                    }
                },
            }
            Ok(())
        },
        WhatToDoAfterParseArgs::CheckSetup(check_setup) => {
            let ask_words = check_setup.ask.clone();
            let after_check = match check_setup.next(port) {
                Ok(w) => w,
                Err(e) => {
                    return Err(e);
                },
            };
            let check_ask = match after_check {
                WhatToDoAfterCheckSetup::SetupScript(setup_script) => {
                    match setup_script.next(port) {
                        Ok(()) => {},
                        Err(e) => {
                            return Err(e);
                        },
                    }
                    CheckAsk { ask: ask_words }
                },
                WhatToDoAfterCheckSetup::CheckAsk(check_ask) => check_ask,
            };
            let generate_context = match check_ask.next(port) {
                Ok(g) => g,
                Err(e) => {
                    return Err(e);
                },
            };
            let call_server = match generate_context.next(port) {
                Ok(c) => c,
                Err(e) => {
                    return Err(e);
                },
            };
            let prompt = match call_server.next(port) {
                Ok(p) => p,
                Err(e) => {
                    return Err(e);
                },
            };
            match prompt.next(port) {
                Ok(()) => Ok(()),
                Err(e) => Err(e),
            }
        },
    }
}

} // verus!
