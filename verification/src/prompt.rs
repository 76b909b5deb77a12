//! The terminal stage of a successful run: publishing the generated command.

use crate::common::GetCliPromptResponse;
use crate::utils::{Error, PortModel, PortTrait, State};
use vstd::prelude::*;

verus! {

/// The publishing stage's state: the generated command.
#[derive(Debug)]
pub struct Prompt {
    pub value: String,
}

impl Prompt {
    /// What the remote answer yields for each value it can take: exactly the
    /// command string it carries.
    pub fn from_response(response: GetCliPromptResponse) -> (r: Prompt)
        ensures
            r.value == response.prompt.value,
    {
        Prompt { value: response.prompt.value }
    }
}

impl State<()> for Prompt {
    /// Publishes the command as the run's one final result.
    fn next<P: PortTrait>(self, port: &mut P) -> (r: Result<(), Error>)
        ensures
            r is Ok,
            final(port).model() == (PortModel {
                final_prompt: Some(self.value@),
                ..old(port).model()
            }),
    {
        port.set_final_prompt(self.value);
        Ok(())
    }
}

} // verus!
