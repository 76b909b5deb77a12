//! The remote-call stage: the one network-bound step.  The answer is the
//! remote service's to give; a failure is propagated verbatim as the run's
//! terminal error.

use crate::common::{CliContext, GetCliPromptRequestBody};
use crate::prompt::Prompt;
use crate::utils::{Error, PortTrait, State};
use vstd::prelude::*;

verus! {

/// The remote-call stage's state: the ask and the context to send.
#[derive(Debug)]
pub struct CallServer {
    pub ask: String,
    pub context: CliContext,
}

impl State<Prompt> for CallServer {
    /// Sends the ask and the context through the port; whatever command
    /// string comes back becomes the prompt to publish.  The port's state is
    /// untouched either way.
    fn next<P: PortTrait>(self, port: &mut P) -> (r: Result<Prompt, Error>)
        ensures
            final(port).model() == old(port).model(),
            r matches Err(e) ==> e is Remote,
    {
        let query = GetCliPromptRequestBody { ask: self.ask, context: self.context };
        match port.ask_server_for_prompt(query) {
            Ok(response) => Ok(Prompt::from_response(response)),
            Err(e) => Err(e),
        }
    }
}

} // verus!
