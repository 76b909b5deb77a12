//! Validation of the ask: a single line of at most `MAX_ASK_LENGTH`
//! characters.  A violation is a validation failure, never a crash.

use crate::generate_context::GenerateContext;
use crate::utils::{Error, PortTrait, State};
use crate::text;
use vstd::prelude::*;

verus! {

/// The longest ask accepted, in characters.
pub const MAX_ASK_LENGTH: usize = 100;

/// The validation stage's state: the joined ask.
#[derive(Debug)]
pub struct CheckAsk {
    pub ask: String,
}

impl State<GenerateContext> for CheckAsk {
    /// Rejects an ask holding a line break, then one over the length bound;
    /// every other ask passes on to context building.  No effects.
    fn next<P: PortTrait>(self, port: &mut P) -> (r: Result<GenerateContext, Error>)
        ensures
            final(port).model() == old(port).model(),
            r is Ok <==> (!self.ask@.contains('\n') && self.ask@.len() <= MAX_ASK_LENGTH),
            r matches Ok(g) ==> g.ask == self.ask,
            self.ask@.contains('\n') ==> r matches Err(Error::AskContainsNewline),
            !self.ask@.contains('\n') && self.ask@.len() > MAX_ASK_LENGTH ==> r matches Err(
                Error::AskTooLong,
            ),
    {
        if text::contains_char(self.ask.as_str(), '\n') {
            return Err(Error::AskContainsNewline);
        }
        if self.ask.as_str().unicode_len() > MAX_ASK_LENGTH {
            return Err(Error::AskTooLong);
        }
        Ok(GenerateContext::new(self.ask))
    }
}

} // verus!
