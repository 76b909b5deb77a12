//! Classifying the parsed command-line arguments into exactly one branch:
//! reset, version printing, an internal transcript sub-query, or the normal
//! ask flow.  A pure decision; the port is not consulted.

use crate::check_setup::CheckSetup;
use crate::reset::Reset;
use crate::text;
use crate::utils::{Error, PortTrait, Shell, ShellName, State};
use crate::what_to_do::{WhatToDoAfterParseArgs, WhatToDoAfterParseArgsInternalAction};
use crate::CLI_VERSION;
use vstd::prelude::*;

verus! {

/// The parsed command-line arguments.  All flags are optional; the shell
/// name and the setup version are supplied together by the integration
/// script, never independently.
#[derive(Debug)]
pub struct ParseArgs {
    /// Print version information.
    pub version: bool,
    /// Reset the setup.
    pub reset: bool,
    /// Internal: extract the pre-sentinel segment of a captured transcript.
    pub get_stdout: bool,
    /// Internal: extract the post-sentinel segment of a captured transcript.
    pub get_prompt: bool,
    /// Which shell the invoking process runs inside.
    pub shell_name: Option<String>,
    /// The version of the integration script already installed.
    pub setup_version: Option<String>,
    /// The ask, as the words given on the command line.
    pub ask: Vec<String>,
}

impl Default for ParseArgs {
    /// No flags, no shell, an empty ask.
    fn default() -> (r: Self)
        ensures
            !r.version && !r.reset && !r.get_stdout && !r.get_prompt,
            r.shell_name is None,
            r.setup_version is None,
            r.ask@.len() == 0,
    {
        ParseArgs {
            version: false,
            reset: false,
            get_stdout: false,
            get_prompt: false,
            shell_name: None,
            setup_version: None,
            ask: Vec::new(),
        }
    }
}

impl ParseArgs {
    /// Both shell flags stand, but the shell name is not in the registry.
    pub open spec fn shell_arg_invalid(&self) -> bool {
        match (self.shell_name, self.setup_version) {
            (Some(name), Some(_)) => ShellName::from_name_spec(name@) is None,
            _ => false,
        }
    }

    /// The shell the integration script declared, where both flags stand and
    /// the name is in the registry.
    pub open spec fn declared_shell_spec(&self) -> Option<Shell> {
        match (self.shell_name, self.setup_version) {
            (Some(name), Some(version)) => match ShellName::from_name_spec(name@) {
                Some(shell_name) => Some(Shell { setup_version: version, name: shell_name }),
                None => None,
            },
            _ => None,
        }
    }

    /// The ask words joined with single spaces.
    pub open spec fn joined_ask_spec(&self) -> Seq<char> {
        text::join_char(self.ask.deep_view(), ' ')
    }
}

/// The version report of an installed integration script: name@version.
pub open spec fn setup_version_report_spec(shell: Shell) -> Seq<char> {
    shell.name.display_name_spec() + "@"@ + shell.setup_version@
}

impl State<WhatToDoAfterParseArgs> for ParseArgs {
    /// Picks the branch.  An unknown shell name fails the run outright; the
    /// reset flag wins over the version flag, which wins over the two
    /// internal flags, which win over the normal ask flow.
    fn next<P: PortTrait>(self, port: &mut P) -> (r: Result<WhatToDoAfterParseArgs, Error>)
        ensures
            final(port).model() == old(port).model(),
            self.shell_arg_invalid() <==> r matches Err(Error::InvalidShellName),
            r is Err ==> r matches Err(Error::InvalidShellName),
            !self.shell_arg_invalid() && self.reset ==> r matches Ok(
                WhatToDoAfterParseArgs::Reset(_),
            ),
            !self.shell_arg_invalid() && !self.reset && self.version ==> (r matches Ok(
                WhatToDoAfterParseArgs::PrintVersion { cli_version, setup_version },
            ) && cli_version@ == CLI_VERSION@ && (match self.declared_shell_spec() {
                Some(shell) => setup_version matches Some(report) && report@
                    == setup_version_report_spec(shell),
                None => setup_version is None,
            })),
            !self.shell_arg_invalid() && !self.reset && !self.version && self.get_stdout ==> (
            r matches Ok(WhatToDoAfterParseArgs::Internal { input, action }) && input@
                == self.joined_ask_spec() && action is GetStdout),
            !self.shell_arg_invalid() && !self.reset && !self.version && !self.get_stdout
                && self.get_prompt ==> (r matches Ok(
                WhatToDoAfterParseArgs::Internal { input, action },
            ) && input@ == self.joined_ask_spec() && action is GetPrompt),
            !self.shell_arg_invalid() && !self.reset && !self.version && !self.get_stdout
                && !self.get_prompt ==> (r matches Ok(
                WhatToDoAfterParseArgs::CheckSetup(check_setup),
            ) && check_setup.ask@ == self.joined_ask_spec() && check_setup.shell
                == self.declared_shell_spec()),
    {
        let shell: Option<Shell> = match (self.shell_name, self.setup_version) {
            (Some(name), Some(version)) => match ShellName::from_name(name.as_str()) {
                Some(shell_name) => Some(Shell { setup_version: version, name: shell_name }),
                None => {
                    return Err(Error::InvalidShellName);
                },
            },
            _ => None,
        };

        if self.reset {
            return Ok(WhatToDoAfterParseArgs::Reset(Reset));
        }

        if self.version {
            let setup_version = match shell {
                Some(shell) => Some(
                    shell.name.display_name().concat("@").concat(shell.setup_version.as_str()),
                ),
                None => None,
            };
            return Ok(WhatToDoAfterParseArgs::PrintVersion {
                cli_version: String::from_str(CLI_VERSION),
                setup_version,
            });
        }

        proof {
            reveal_strlit(" ");
        }
        let ask = text::join_char_exec(&self.ask, " ");
        if self.get_stdout {
            return Ok(WhatToDoAfterParseArgs::Internal {
                input: ask,
                action: WhatToDoAfterParseArgsInternalAction::GetStdout,
            });
        }

        if self.get_prompt {
            return Ok(WhatToDoAfterParseArgs::Internal {
                input: ask,
                action: WhatToDoAfterParseArgsInternalAction::GetPrompt,
            });
        }

        Ok(WhatToDoAfterParseArgs::CheckSetup(CheckSetup { shell, ask }))
    }
}

} // verus!
