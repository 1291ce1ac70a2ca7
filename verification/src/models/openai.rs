//! The OpenAI-facing side of the pipeline: model names, request rendering,
//! and the decisions made on what the transport brings back.

use super::ExtractionError;
use super::GenerationCause;
use super::GenerationError;
use super::extract;
use crate::clients::Message;
use crate::clients::OpenAIChatRequest;
use crate::clients::OpenAIChatResponse;
use crate::clients::OpenAIClient;
use crate::clients::OpenAIErrorResponse;
use crate::clients::TransportError;
use crate::clients::interpret_response;
use crate::prompts::instructions::BehaviourInstructions;
use crate::prompts::prompt::Prompt;
use crate::text::contains_seq;
use crate::text::occurs_at;
use crate::text::str_eq;
use vstd::prelude::*;
use vstd::string::*;

verus! {

/// The chat models the tool can address.
#[derive(Debug, Clone, Copy, PartialEq, Eq, Structural)]
pub enum OpenAIModel {
    Gpt3Turbo,
    Gpt3Turbo16k,
    Gpt4,
}

/// The wire name of each model.
pub open spec fn model_name_spec(m: OpenAIModel) -> Seq<char> {
    match m {
        OpenAIModel::Gpt3Turbo => "gpt-3.5-turbo"@,
        OpenAIModel::Gpt3Turbo16k => "gpt-3.5-turbo-16k"@,
        OpenAIModel::Gpt4 => "gpt-4"@,
    }
}

impl OpenAIModel {
    /// The name this model goes by on the wire.
    pub fn name(&self) -> (r: String)
        ensures
            r@ == model_name_spec(*self),
    {
        match self {
            OpenAIModel::Gpt3Turbo => String::from_str("gpt-3.5-turbo"),
            OpenAIModel::Gpt3Turbo16k => String::from_str("gpt-3.5-turbo-16k"),
            OpenAIModel::Gpt4 => String::from_str("gpt-4"),
        }
    }

    /// The model a wire name denotes; exactly the three known names are
    /// accepted.
    pub fn parse_model(s: &str) -> (r: Result<OpenAIModel, ()>)
        ensures
            match r {
                Ok(m) => s@ == model_name_spec(m),
                Err(_) => s@ != "gpt-3.5-turbo"@ && s@ != "gpt-3.5-turbo-16k"@ && s@ != "gpt-4"@,
            },
    {
        if str_eq(s, "gpt-3.5-turbo") {
            Ok(OpenAIModel::Gpt3Turbo)
        } else if str_eq(s, "gpt-3.5-turbo-16k") {
            Ok(OpenAIModel::Gpt3Turbo16k)
        } else if str_eq(s, "gpt-4") {
            Ok(OpenAIModel::Gpt4)
        } else {
            Err(())
        }
    }
}

impl core::str::FromStr for OpenAIModel {
    type Err = ();

    fn from_str(s: &str) -> Result<Self, Self::Err> {
        Self::parse_model(s)
    }
}

/// A client paired with the model it addresses.
pub struct OpenAILanguageModel<'a> {
    pub client: &'a OpenAIClient,
    pub model_name: OpenAIModel,
}

impl<'a> OpenAILanguageModel<'a> {
    pub fn new(client: &'a OpenAIClient, model_name: OpenAIModel) -> (r: Self)
        ensures
            r.client == client,
            r.model_name == model_name,
    {
        Self { client, model_name }
    }
}

/// The system message content of a rendered request: the behaviour
/// instructions, when present, precede the template prefix, so that format
/// directives come first.
pub open spec fn system_content_spec(prompt: &Prompt) -> Seq<char> {
    match prompt.behaviour_instructions {
        Some(bi) => bi.instructions@ + "\n"@ + prompt.prefix@,
        None => prompt.prefix@,
    }
}

impl OpenAIChatRequest {
    /// The prompt renderer: serializes a prompt into the two-message
    /// (system, user) form. The user message is the task behind the literal
    /// `"INPUT: "` marker the templates describe; rendering cannot fail.
    pub fn new(model: &str, prompt: &Prompt) -> (r: Self)
        ensures
            r.model@ == model@,
            r.messages@.len() == 2,
            r.messages@[0].role@ == "system"@,
            r.messages@[0].content@ == system_content_spec(prompt),
            r.messages@[1].role@ == "user"@,
            r.messages@[1].content@ == "INPUT: "@ + prompt.task@,
    {
        let system_content = match &prompt.behaviour_instructions {
            Some(bi) => {
                let mut s = bi.instructions.clone();
                s.append("\n");
                s.append(prompt.prefix.as_str());
                s
            },
            None => prompt.prefix.clone(),
        };
        let system_message = Message { role: String::from_str("system"), content: system_content };
        let mut user_content = String::from_str("INPUT: ");
        user_content.append(prompt.task.as_str());
        let user_message = Message { role: String::from_str("user"), content: user_content };
        let mut messages: Vec<Message> = Vec::new();
        messages.push(system_message);
        messages.push(user_message);
        OpenAIChatRequest { model: model.to_owned(), messages }
    }
}

/// Law: whatever instructions a prompt carries, its rendered system message
/// ends with the template prefix, and the prefix is preceded by exactly the
/// instruction prose and a separating newline when instructions are present,
/// by nothing otherwise.
pub proof fn lemma_system_content_shape(prompt: Prompt)
    ensures
        system_content_spec(&prompt).len() >= prompt.prefix@.len(),
        system_content_spec(&prompt).subrange(
            system_content_spec(&prompt).len() - prompt.prefix@.len(),
            system_content_spec(&prompt).len() as int,
        ) == prompt.prefix@,
        prompt.behaviour_instructions is None ==> system_content_spec(&prompt) == prompt.prefix@,
        prompt.behaviour_instructions matches Some(bi) ==> system_content_spec(&prompt)
            == bi.instructions@ + "\n"@ + prompt.prefix@,
{
    let s = system_content_spec(&prompt);
    assert(s.subrange(s.len() - prompt.prefix@.len(), s.len() as int) =~= prompt.prefix@);
}

/// What the pipeline hands back for a given reply text and instruction
/// value: the extractor's outcome, with an extraction failure wrapped as a
/// generation failure.
pub open spec fn extraction_outcome(
    reply: Seq<char>,
    behaviour_instructions: Option<BehaviourInstructions>,
    r: Result<String, GenerationError>,
) -> bool {
    match behaviour_instructions {
        None => r matches Ok(out) && out@ == reply,
        Some(bi) => if contains_seq(reply, bi.output_token@) {
            r matches Ok(out) && exists|i: int|
                {
                    &&& #[trigger] occurs_at(reply, bi.output_token@, i)
                    &&& forall|j: int| 0 <= j < i ==> !occurs_at(reply, bi.output_token@, j)
                    &&& out@ == reply.subrange(i + bi.output_token@.len(), reply.len() as int)
                }
        } else {
            r matches Err(g) && g.0 matches GenerationCause::Extraction(
                ExtractionError::TokenNotFound(t),
            ) && t@ == bi.output_token@
        },
    }
}

/// Everything the pipeline decides once the transport has answered:
/// classify the response shapes, take the top candidate, and run the
/// extractor with the same instructions the prompt was built with. Succeeds
/// exactly when the transport delivered a candidate and the output token
/// (when one was required) occurs in it.
pub fn handle_reply(
    success: Option<OpenAIChatResponse>,
    error: Option<OpenAIErrorResponse>,
    raw_body: &str,
    behaviour_instructions: &Option<BehaviourInstructions>,
) -> (r: Result<String, GenerationError>)
    ensures
        match success {
            Some(resp) => if resp.choices@.len() > 0 {
                extraction_outcome(
                    resp.choices@[0].message.content@,
                    *behaviour_instructions,
                    r,
                )
            } else {
                r matches Err(g) && g.0 matches GenerationCause::Transport(
                    TransportError::MalformedResponse(b),
                ) && b@ == raw_body@
            },
            None => match error {
                Some(e) => r matches Err(g) && g.0 matches GenerationCause::Transport(
                    TransportError::ApiError { message, error_type, code },
                ) && message@ == e.message@ && error_type@ == e.error_type@ && code@ == e.code@,
                None => r matches Err(g) && g.0 matches GenerationCause::Transport(
                    TransportError::MalformedResponse(b),
                ) && b@ == raw_body@,
            },
        },
{
    match interpret_response(success, error, raw_body) {
        Ok(choice) => match extract(choice.as_str(), behaviour_instructions) {
            Ok(out) => Ok(out),
            Err(e) => Err(GenerationError(GenerationCause::Extraction(e))),
        },
        Err(te) => Err(GenerationError(GenerationCause::Transport(te))),
    }
}

} // verus!
