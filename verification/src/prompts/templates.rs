//! The template registry: the fixed task templates and the built-in
//! behaviour-instruction presets.
//!
//! Each preset pairs instructional prose with the exact literal token the
//! prose promises the model will emit before its final answer; the two are
//! defined together and must change together.

use super::instructions::BehaviourInstructions;
use vstd::prelude::*;
use vstd::string::*;

verus! {

pub const SUMMARIZE: &'static str = "Analyze the input provided and summarize it in your own words. \nIf the text appears to be raw data instead of text, try to infer what the raw data might represent, then analyze and summarize the data.\nBe analytical and concise. Do not include any of the original text in your response. If the text cannot be summarized, write \"Cannot be summarized\"\nThe text to summarize will be formatted as:\n\nINPUT: [text to summarize]\n";

pub const QUERY_DATA: &'static str = "Analyze the input and the user-provided question and answer the question. \nIf the question is unanswerable based on the content of the input, write \"Cannot be answered\".\nBe clear and concise. \n\nThe formatting of the input will be:\nQUESTION: [question to answer]\nINPUT: [text to analyze]\n";

pub const ASK_QUESTION: &'static str = "Provide a response to the question that the user asks. \nTry to answer the question, but if the answer is uncertain make sure to say so.\nBe clear and concise.\n\nThe formatting of the input will be:\nQUESTION: [question to answer]\n";

pub const SELF_CRITIQUE_TEXT: &'static str = "Format your output like so:\n        INITIAL: [initial text]\n        CRITIQUE: [critique of initial text]\n        FINAL: [final text]\n        ";

pub const TREE_OF_THOUGHTS_TEXT: &'static str = "Format your output like so:\nImagine three different experts are working on the problem.\nAll experts will write down 1 step of their thinking, then share it with the group.\nThen all experts will go on to the next step, etc.\nIf any expert realises they're wrong at any point then they leave.\nIf all remaining experts agree, then you're done.\nWhen you're done, write the final answer as:\n\"FINAL: [your final answer]\"";

/// The token both built-in presets promise the model will emit immediately
/// before its final answer.
pub const OUTPUT_TOKEN: &'static str = "FINAL: ";

/// Selects one of the built-in behaviour-instruction presets.
pub struct InstructionSelector;

impl InstructionSelector {
    /// The self-critique preset: the model writes an initial answer and a
    /// critique, then the final answer after the output token.
    pub fn self_critique() -> (r: BehaviourInstructions)
        ensures
            r.instructions@ == SELF_CRITIQUE_TEXT@,
            r.output_token@ == OUTPUT_TOKEN@,
            r.wf(),
    {
        let r = BehaviourInstructions {
            instructions: String::from_str(SELF_CRITIQUE_TEXT),
            output_token: String::from_str(OUTPUT_TOKEN),
        };
        proof {
            reveal_strlit("FINAL: ");
        }
        r
    }

    /// The tree-of-thoughts preset: the model simulates a panel of experts,
    /// then writes the final answer after the output token.
    pub fn tree_of_thoughts() -> (r: BehaviourInstructions)
        ensures
            r.instructions@ == TREE_OF_THOUGHTS_TEXT@,
            r.output_token@ == OUTPUT_TOKEN@,
            r.wf(),
    {
        let r = BehaviourInstructions {
            instructions: String::from_str(TREE_OF_THOUGHTS_TEXT),
            output_token: String::from_str(OUTPUT_TOKEN),
        };
        proof {
            reveal_strlit("FINAL: ");
        }
        r
    }
}

} // verus!
