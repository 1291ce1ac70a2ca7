//! Prompt construction: the staged builder (`prompt`), the behaviour
//! instructions it carries (`instructions`), and the template registry
//! (`templates`).
//!
//! This module also keeps the earlier, simpler prompt form, which bakes the
//! custom instructions directly into the template text.

pub mod instructions;
pub mod prompt;
pub mod templates;

use crate::text::trim_of;
use crate::text::trimmed;
use vstd::prelude::*;
use vstd::string::*;

verus! {

pub const SUMMARIZE: &'static str = "Analyze the input provided and summarize it in your own words. \nIf the text appears to be raw data instead of text, try to infer what the raw data might represent, then analyze and summarize the data.\nBe analytical and concise. Do not include any of the original text in your response. If the text cannot be summarized, write \"Cannot be summarized\"\nThe text to summarize will be formatted as:\n\nINPUT: [text to summarize]\n";

pub const QUERY: &'static str = "Analyze the input and the user-provided question and answer the question. \nIf the question is unanswerable based on the content of the input, write \"Cannot be answered\".\nBe clear and concise. \n\nThe formatting of the input will be:\nQUESTION: [text to analyze]\nINPUT: [question to answer]\n";

/// The earlier prompt form: the template text and the task, already joined
/// into their final shape, with no separate instruction value.
#[derive(Debug)]
pub struct Prompt {
    pub prompt: String,
    pub task: String,
}

impl Prompt {
    /// Pairs a template with a task, marking the task with the literal
    /// `"INPUT: "` prefix the templates describe.
    pub fn new(prompt: &str, task: &str) -> (r: Self)
        ensures
            r.prompt@ == prompt@,
            r.task@ == "INPUT: "@ + task@,
    {
        let mut processed_task = String::from_str("INPUT: ");
        processed_task.append(task);
        Self { prompt: prompt.to_owned(), task: processed_task }
    }

    /// Like `new`, but appends the trimmed custom instructions to the
    /// template text itself.
    pub fn with_custom_instructions(prompt: &str, task: &str, custom_instructions: &str) -> (r:
        Self)
        ensures
            r.prompt@ == prompt@ + "\n\nAddtionally, closely follow these instructions: "@
                + trim_of(custom_instructions@),
            r.task@ == "INPUT: "@ + task@,
    {
        let mut full_prompt = prompt.to_owned();
        full_prompt.append("\n\nAddtionally, closely follow these instructions: ");
        let trimmed_instructions = trimmed(custom_instructions);
        full_prompt.append(trimmed_instructions.as_str());
        let mut processed_task = String::from_str("INPUT: ");
        processed_task.append(task);
        Self { prompt: full_prompt, task: processed_task }
    }

    /// The text shown for this prompt: template and task separated by a
    /// blank line.
    pub fn display_string(&self) -> (r: String)
        ensures
            r@ == self.prompt@ + "\n\nInput: "@ + self.task@,
    {
        let mut r = self.prompt.clone();
        r.append("\n\nInput: ");
        r.append(self.task.as_str());
        r
    }
}

/// Joins a template, a task and optional custom instructions into one
/// prompt string; the instructions, when present, are appended to the task
/// text unchanged.
pub fn format_prompt(prompt: &str, task: &str, custom_instructions: &Option<String>) -> (r:
    String)
    ensures
        r@ == prompt@ + "\n\nInput: "@ + task@ + match custom_instructions {
            Some(c) => c@,
            None => Seq::<char>::empty(),
        },
{
    let mut r = prompt.to_owned();
    r.append("\n\nInput: ");
    r.append(task);
    if let Some(c) = custom_instructions {
        r.append(c.as_str());
    }
    proof {
        if custom_instructions is None {
            assert(r@ =~= prompt@ + "\n\nInput: "@ + task@ + Seq::<char>::empty());
        }
    }
    r
}

} // verus!
