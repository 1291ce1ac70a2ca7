//! Language models and the response extractor: recovering the user-facing
//! answer from a raw model reply, with the failure taxonomy the pipeline
//! surfaces.

pub mod openai;

use crate::clients::TransportError;
use crate::clients::transport_message_spec;
use crate::prompts::instructions::BehaviourInstructions;
use crate::prompts::prompt::Prompt;
use crate::text::contains_seq;
use crate::text::find_first;
use crate::text::occurs_at;
use vstd::prelude::*;
use vstd::string::*;

verus! {

/// The model's reply did not contain the expected marker token: it did not
/// follow the requested output format. Distinct from any transport failure.
#[derive(Debug)]
pub enum ExtractionError {
    TokenNotFound(String),
}

/// The text shown for an extraction failure.
pub open spec fn extraction_message_spec(e: ExtractionError) -> Seq<char> {
    match e {
        ExtractionError::TokenNotFound(token) => "Could not split output with token "@ + token@,
    }
}

impl ExtractionError {
    /// A human-readable description naming the token that was not found.
    pub fn message(&self) -> (r: String)
        ensures
            r@ == extraction_message_spec(*self),
    {
        match self {
            ExtractionError::TokenNotFound(token) => {
                let mut r = String::from_str("Could not split output with token ");
                r.append(token.as_str());
                r
            },
        }
    }
}

/// Why a generation attempt failed: the transport did not deliver a reply,
/// or it did and the reply could not be split into a final answer.
#[derive(Debug)]
pub enum GenerationCause {
    Transport(TransportError),
    Extraction(ExtractionError),
}

/// Error returned by `LanguageModel::generate`. The cause keeps transport
/// and extraction failures programmatically distinguishable.
#[derive(Debug)]
pub struct GenerationError(pub GenerationCause);

/// The text shown for a failed generation.
pub open spec fn generation_message_spec(e: GenerationError) -> Seq<char> {
    "GenerationError: "@ + match e.0 {
        GenerationCause::Transport(t) => transport_message_spec(t),
        GenerationCause::Extraction(x) => extraction_message_spec(x),
    }
}

impl GenerationError {
    /// A human-readable description of the failure.
    pub fn message(&self) -> (r: String)
        ensures
            r@ == generation_message_spec(*self),
    {
        let mut r = String::from_str("GenerationError: ");
        match &self.0 {
            GenerationCause::Transport(t) => {
                let m = t.message();
                r.append(m.as_str());
            },
            GenerationCause::Extraction(x) => {
                let m = x.message();
                r.append(m.as_str());
            },
        }
        r
    }
}

/// A model that turns a built prompt into a final answer string.
pub trait LanguageModel {
    fn generate(&self, input: Prompt) -> Result<String, GenerationError>;
}

/// The response extractor. With no behaviour instructions the reply is the
/// answer, verbatim. With instructions, the reply is split at the first
/// occurrence of the output token and everything after that occurrence is
/// the answer, verbatim; if the token does not occur — in particular in an
/// empty reply — extraction fails with `TokenNotFound`.
pub fn extract(reply: &str, behaviour_instructions: &Option<BehaviourInstructions>) -> (r: Result<
    String,
    ExtractionError,
>)
    ensures
        match behaviour_instructions {
            None => r matches Ok(out) && out@ == reply@,
            Some(bi) => match r {
                Ok(out) => exists|i: int|
                    {
                        &&& #[trigger] occurs_at(reply@, bi.output_token@, i)
                        &&& forall|j: int| 0 <= j < i ==> !occurs_at(reply@, bi.output_token@, j)
                        &&& out@ == reply@.subrange(
                            i + bi.output_token@.len(),
                            reply@.len() as int,
                        )
                    },
                Err(e) => {
                    &&& !contains_seq(reply@, bi.output_token@)
                    &&& e matches ExtractionError::TokenNotFound(t) && t@ == bi.output_token@
                },
            },
        },
        r is Ok <==> match behaviour_instructions {
            None => true,
            Some(bi) => contains_seq(reply@, bi.output_token@),
        },
{
    match behaviour_instructions {
        None => Ok(reply.to_owned()),
        Some(bi) => {
            match find_first(reply, bi.output_token.as_str()) {
                Some(i) => {
                    let token_len = bi.output_token.as_str().unicode_len();
                    let n = reply.unicode_len();
                    let out = reply.substring_char(i + token_len, n).to_owned();
                    Ok(out)
                },
                None => Err(ExtractionError::TokenNotFound(bi.output_token.clone())),
            }
        },
    }
}

/// Law: splitting is the inverse of marking. For any reply assembled as
/// `noise + token + answer`, where the non-empty token does not already
/// occur with an earlier starting position, the first occurrence of the
/// token starts exactly where it was placed, and the text after it is
/// exactly `answer` — so `extract` returns `answer`, with no trimming.
pub proof fn lemma_extract_round_trip(noise: Seq<char>, token: Seq<char>, answer: Seq<char>)
    requires
        token.len() > 0,
        forall|j: int| 0 <= j < noise.len() ==> !occurs_at(noise + token + answer, token, j),
    ensures
        occurs_at(noise + token + answer, token, noise.len() as int),
        forall|i: int|
            occurs_at(noise + token + answer, token, i) && (forall|j: int|
                0 <= j < i ==> !occurs_at(noise + token + answer, token, j)) ==> i == noise.len(),
        (noise + token + answer).subrange(
            (noise.len() + token.len()) as int,
            (noise + token + answer).len() as int,
        ) == answer,
{
    let whole = noise + token + answer;
    assert(whole.subrange(noise.len() as int, (noise.len() + token.len()) as int) =~= token);
    assert(occurs_at(whole, token, noise.len() as int));
    assert forall|i: int|
        occurs_at(whole, token, i) && (forall|j: int|
            0 <= j < i ==> !occurs_at(whole, token, j)) implies i == noise.len() by {
        if i < noise.len() {
            assert(!occurs_at(whole, token, i));
        }
        if i > noise.len() {
            assert(!occurs_at(whole, token, noise.len() as int));
        }
    }
    assert(whole.subrange((noise.len() + token.len()) as int, whole.len() as int) =~= answer);
}

} // verus!
