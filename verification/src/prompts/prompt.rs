//! The staged prompt builder and the immutable `Prompt` it produces.
//!
//! A builder is created empty, its fields are set in any order (the last
//! write to a field wins), and `build` consumes it: it either yields a
//! `Prompt`, whose required `prefix` and `task` are then always present, or
//! reports which required field was missing.

use super::instructions::BehaviourInstructions;
use vstd::prelude::*;
use vstd::string::*;

verus! {

/// Which required field `PromptBuilder::build` found unset.
#[derive(Debug, Clone, Copy, PartialEq, Eq, Structural)]
pub enum MissingField {
    Prefix,
    Task,
}

/// A required field was never set before `build` was called. When both are
/// unset, the task is the one reported.
#[derive(Debug)]
pub struct PromptBuilderError {
    pub missing_field: MissingField,
}

impl PromptBuilderError {
    /// A human-readable description naming the missing field.
    pub fn message(&self) -> (r: String)
        ensures
            r@ == match self.missing_field {
                MissingField::Prefix => "No prefix provided"@,
                MissingField::Task => "No task provided"@,
            },
    {
        match self.missing_field {
            MissingField::Prefix => String::from_str("No prefix provided"),
            MissingField::Task => String::from_str("No task provided"),
        }
    }
}

/// Mutable staging value for a `Prompt`. Consumed exactly once by `build`.
pub struct PromptBuilder {
    prefix: Option<String>,
    behaviour_instructions: Option<BehaviourInstructions>,
    task: Option<String>,
}

/// An immutable prompt: a template prefix, the task body, and optional
/// behaviour instructions. The same instruction value must be handed,
/// unchanged, to the extractor that processes the reply to this prompt.
#[derive(Debug)]
pub struct Prompt {
    pub prefix: String,
    pub behaviour_instructions: Option<BehaviourInstructions>,
    pub task: String,
}

impl PromptBuilder {
    /// The staged prefix, if one was set.
    pub closed spec fn prefix_view(&self) -> Option<Seq<char>> {
        match self.prefix {
            Some(p) => Some(p@),
            None => None,
        }
    }

    /// The staged task, if one was set.
    pub closed spec fn task_view(&self) -> Option<Seq<char>> {
        match self.task {
            Some(t) => Some(t@),
            None => None,
        }
    }

    /// The staged behaviour instructions, if any were set.
    pub closed spec fn instructions_view(&self) -> Option<BehaviourInstructions> {
        self.behaviour_instructions
    }

    /// Sets the template prefix, replacing any earlier one.
    pub fn with_prefix(self, prefix: &str) -> (r: Self)
        ensures
            r.prefix_view() == Some(prefix@),
            r.task_view() == self.task_view(),
            r.instructions_view() == self.instructions_view(),
    {
        PromptBuilder { prefix: Some(prefix.to_owned()), ..self }
    }

    /// Sets the behaviour instructions, replacing any earlier ones.
    pub fn with_behaviour_instructions(self, instructions: &BehaviourInstructions) -> (r: Self)
        ensures
            r.instructions_view() == Some(*instructions),
            r.prefix_view() == self.prefix_view(),
            r.task_view() == self.task_view(),
    {
        PromptBuilder { behaviour_instructions: Some(instructions.clone()), ..self }
    }

    /// Sets the task body, replacing any earlier one.
    pub fn with_task(self, task: &str) -> (r: Self)
        ensures
            r.task_view() == Some(task@),
            r.prefix_view() == self.prefix_view(),
            r.instructions_view() == self.instructions_view(),
    {
        PromptBuilder { task: Some(task.to_owned()), ..self }
    }

    /// Validates the staged fields and produces the immutable `Prompt`.
    /// Succeeds exactly when both the prefix and the task were set; the
    /// prompt then carries whatever behaviour instructions were last set.
    pub fn build(self) -> (r: Result<Prompt, PromptBuilderError>)
        ensures
            match r {
                Ok(p) => {
                    &&& self.prefix_view() == Some(p.prefix@)
                    &&& self.task_view() == Some(p.task@)
                    &&& self.instructions_view() == p.behaviour_instructions
                },
                Err(e) => {
                    &&& self.task_view() is None || self.prefix_view() is None
                    &&& e.missing_field == if self.task_view() is None {
                        MissingField::Task
                    } else {
                        MissingField::Prefix
                    }
                },
            },
            r is Ok <==> self.prefix_view() is Some && self.task_view() is Some,
    {
        let PromptBuilder { prefix, behaviour_instructions, task } = self;
        let task = match task {
            Some(t) => t,
            None => {
                return Err(PromptBuilderError { missing_field: MissingField::Task });
            },
        };
        let prefix = match prefix {
            Some(p) => p,
            None => {
                return Err(PromptBuilderError { missing_field: MissingField::Prefix });
            },
        };
        Ok(Prompt { prefix, behaviour_instructions, task })
    }
}

impl Prompt {
    /// A fresh, empty builder.
    pub fn new() -> (r: PromptBuilder)
        ensures
            r.prefix_view() is None,
            r.task_view() is None,
            r.instructions_view() is None,
    {
        PromptBuilder { prefix: None, behaviour_instructions: None, task: None }
    }

    /// The text shown for a prompt: its prefix, the instruction prose when
    /// present, and the task, each on its own line.
    pub fn display_string(&self) -> (r: String)
        ensures
            r@ == match self.behaviour_instructions {
                Some(bi) => self.prefix@ + "\n"@ + bi.instructions@ + "\nInput: "@ + self.task@,
                None => self.prefix@ + "\nInput: "@ + self.task@,
            },
    {
        let mut r = self.prefix.clone();
        if let Some(bi) = &self.behaviour_instructions {
            r.append("\n");
            r.append(bi.instructions.as_str());
        }
        r.append("\nInput: ");
        r.append(self.task.as_str());
        r
    }
}

} // verus!
