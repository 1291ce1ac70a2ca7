//! Behaviour instructions: prose injected into the system message that asks
//! the model for a specific output shape, paired with the literal token that
//! marks where the final answer begins in the model's reply.

use vstd::prelude::*;
use vstd::string::*;

verus! {

/// Instructions for formatting the model's output. `output_token` is the
/// literal substring the instructions promise the model will emit
/// immediately before its final answer; the extractor splits the reply on
/// its first occurrence and has no fallback if the model does not comply.
#[derive(Debug)]
pub struct BehaviourInstructions {
    pub instructions: String,
    pub output_token: String,
}

impl BehaviourInstructions {
    /// A usable value carries a non-empty output token.
    pub open spec fn wf(&self) -> bool {
        self.output_token@.len() > 0
    }

    pub fn new(instructions: &str, output_token: &str) -> (r: Self)
        ensures
            r.instructions@ == instructions@,
            r.output_token@ == output_token@,
    {
        Self {
            instructions: instructions.to_owned(),
            output_token: output_token.to_owned(),
        }
    }

    /// The text shown for this value: the instruction prose itself.
    pub fn display_string(&self) -> (r: String)
        ensures
            r@ == self.instructions@,
    {
        self.instructions.clone()
    }
}

impl Clone for BehaviourInstructions {
    fn clone(&self) -> (r: Self)
        ensures
            r == *self,
    {
        BehaviourInstructions {
            instructions: self.instructions.clone(),
            output_token: self.output_token.clone(),
        }
    }
}

} // verus!
