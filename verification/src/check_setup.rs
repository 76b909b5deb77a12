//! The setup check: is the shell integration current?  Version comparison is
//! exact string equality — an older, newer or garbled installed version all
//! count as outdated and trigger a full reinstall.

use crate::check_ask::CheckAsk;
use crate::setup_script::SetupScript;
use crate::text;
use crate::utils::{expected_version_spec, Error, PortModel, PortTrait, Shell, State};
use crate::what_to_do::WhatToDoAfterCheckSetup;
use vstd::prelude::*;

verus! {

/// The reported version exactly equals the registry's marker version.
pub open spec fn setup_is_current(shell: Shell) -> bool {
    expected_version_spec(shell.name) == Some(shell.setup_version@)
}

/// The setup-check stage's state: the shell the run is inside (where one was
/// declared) and the joined ask.
#[derive(Debug)]
pub struct CheckSetup {
    pub shell: Option<Shell>,
    pub ask: String,
}

impl State<WhatToDoAfterCheckSetup> for CheckSetup {
    /// No shell declared: the setup script is treated as not installed.
    /// A declared shell with any version other than the registry's marker:
    /// outdated.  An exact match proceeds to ask validation, logging nothing.
    fn next<P: PortTrait>(self, port: &mut P) -> (r: Result<WhatToDoAfterCheckSetup, Error>)
        ensures
            r is Ok,
            match self.shell {
                None => final(port).model() == (PortModel {
                    logs: old(port).model().logs.push("Setup script not installed"@),
                    ..old(port).model()
                }) && (r matches Ok(WhatToDoAfterCheckSetup::SetupScript(s)) && s.0 is None),
                Some(shell) => {
                    if setup_is_current(shell) {
                        final(port).model() == old(port).model() && (r matches Ok(
                            WhatToDoAfterCheckSetup::CheckAsk(ca),
                        ) && ca.ask == self.ask)
                    } else {
                        final(port).model() == (PortModel {
                            logs: old(port).model().logs.push("Setup script outdated"@),
                            ..old(port).model()
                        }) && (r matches Ok(WhatToDoAfterCheckSetup::SetupScript(s)) && s.0
                            == Some(shell.name))
                    }
                },
            },
    {
        match self.shell {
            None => {
                port.log("Setup script not installed");
                Ok(WhatToDoAfterCheckSetup::SetupScript(SetupScript(None)))
            },
            Some(shell) => {
                let current = match shell.expected_setup_version() {
                    Some(expected) => text::str_eq(
                        shell.setup_version.as_str(),
                        expected.as_str(),
                    ),
                    None => false,
                };
                if current {
                    Ok(WhatToDoAfterCheckSetup::CheckAsk(CheckAsk { ask: self.ask }))
                } else {
                    port.log("Setup script outdated");
                    Ok(WhatToDoAfterCheckSetup::SetupScript(SetupScript(Some(shell.name))))
                }
            },
        }
    }
}

} // verus!
