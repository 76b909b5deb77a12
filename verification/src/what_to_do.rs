//! The branch decisions of the pipeline: what to do once the arguments are
//! classified, and what to do once the setup check has run.

use crate::check_ask::CheckAsk;
use crate::check_setup::CheckSetup;
use crate::reset::Reset;
use crate::setup_script::SetupScript;
use vstd::prelude::*;

verus! {

/// The action of an internal sub-query: which segment of a captured
/// transcript to extract.
#[derive(Debug)]
pub enum WhatToDoAfterParseArgsInternalAction {
    GetStdout,
    GetPrompt,
}

/// The branch selected from the parsed arguments; exactly one is live.
#[derive(Debug)]
pub enum WhatToDoAfterParseArgs {
    Reset(Reset),
    PrintVersion { cli_version: String, setup_version: Option<String> },
    Internal { input: String, action: WhatToDoAfterParseArgsInternalAction },
    CheckSetup(CheckSetup),
}

/// The branch selected from the setup check: install first, or go straight
/// to validating the ask.
#[derive(Debug)]
pub enum WhatToDoAfterCheckSetup {
    SetupScript(SetupScript),
    CheckAsk(CheckAsk),
}

} // verus!
