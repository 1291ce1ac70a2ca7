//! Data carried across the chat-transport boundary, and the decision of what
//! a transport response body means.
//!
//! The transport itself (HTTP, authentication, JSON encoding) lives outside
//! this library; it hands back either the parsed success shape, the parsed
//! error shape, or neither, and `interpret_response` classifies the outcome.

use vstd::prelude::*;
use vstd::string::*;

verus! {

/// One role-tagged chat message.
#[derive(Debug)]
pub struct Message {
    pub role: String,
    pub content: String,
}

/// The chat request: a model identifier and the ordered messages. The
/// transport adds its own wire details (such as a sampling temperature)
/// when it encodes this.
#[derive(Debug)]
pub struct OpenAIChatRequest {
    pub model: String,
    pub messages: Vec<Message>,
}

/// One candidate answer within a successful chat response.
#[derive(Debug)]
pub struct Choice {
    pub index: usize,
    pub message: Message,
    pub finish_reason: String,
}

/// The success shape of a chat response.
#[derive(Debug)]
pub struct OpenAIChatResponse {
    pub id: String,
    pub object: String,
    pub created: i64,
    pub choices: Vec<Choice>,
}

/// The error payload shape of a chat response.
#[derive(Debug)]
pub struct OpenAIErrorResponse {
    pub message: String,
    pub error_type: String,
    pub code: String,
}

/// A failure at the chat-transport boundary. The three variants keep
/// "the request never completed", "the API answered with an error payload"
/// and "the response matched neither known shape" distinguishable.
#[derive(Debug)]
pub enum TransportError {
    Network(String),
    ApiError { message: String, error_type: String, code: String },
    MalformedResponse(String),
}

/// The text shown for a transport failure.
pub open spec fn transport_message_spec(e: TransportError) -> Seq<char> {
    match e {
        TransportError::Network(detail) => "Failed to send request to OpenAI API: "@ + detail@,
        TransportError::ApiError { message, error_type, code } => (
        "Failed to send request to OpenAI API: "@ + message@),
        TransportError::MalformedResponse(body) => (
        "Failed to deserialize error response from OpenAI API: "@ + body@),
    }
}

impl TransportError {
    /// A human-readable description of the failure.
    pub fn message(&self) -> (r: String)
        ensures
            r@ == transport_message_spec(*self),
    {
        match self {
            TransportError::Network(detail) => {
                let mut r = String::from_str("Failed to send request to OpenAI API: ");
                r.append(detail.as_str());
                r
            },
            TransportError::ApiError { message, error_type: _, code: _ } => {
                let mut r = String::from_str("Failed to send request to OpenAI API: ");
                r.append(message.as_str());
                r
            },
            TransportError::MalformedResponse(body) => {
                let mut r = String::from_str(
                    "Failed to deserialize error response from OpenAI API: ",
                );
                r.append(body.as_str());
                r
            },
        }
    }
}

/// Holds the credential the transport signs requests with.
pub struct OpenAIClient {
    api_key: String,
}

impl OpenAIClient {
    /// The stored credential.
    pub closed spec fn key_view(&self) -> Seq<char> {
        self.api_key@
    }

    pub fn new(api_key: &str) -> (r: Self)
        ensures
            r.key_view() == api_key@,
    {
        Self { api_key: api_key.to_owned() }
    }

    /// The key handed to `new`, for the transport that signs the request.
    pub fn api_key(&self) -> (r: &String)
        ensures
            r@ == self.key_view(),
    {
        &self.api_key
    }
}

impl OpenAIChatResponse {
    /// The text of the first candidate.
    pub fn get_top_choice(&self) -> (r: String)
        requires
            self.choices@.len() > 0,
        ensures
            r@ == self.choices@[0].message.content@,
    {
        self.choices[0].message.content.clone()
    }
}

/// Classifies what the transport brought back. A success shape with at
/// least one candidate yields that candidate's text; an error payload is
/// reported as an `ApiError` carrying its fields; a success shape without
/// candidates, or a body that parsed as neither shape, is malformed.
pub fn interpret_response(
    success: Option<OpenAIChatResponse>,
    error: Option<OpenAIErrorResponse>,
    raw_body: &str,
) -> (r: Result<String, TransportError>)
    ensures
        match success {
            Some(resp) => if resp.choices@.len() > 0 {
                r matches Ok(c) && c@ == resp.choices@[0].message.content@
            } else {
                r matches Err(TransportError::MalformedResponse(b)) && b@ == raw_body@
            },
            None => match error {
                Some(e) => r matches Err(TransportError::ApiError { message, error_type, code })
                    && message@ == e.message@ && error_type@ == e.error_type@ && code@ == e.code@,
                None => r matches Err(TransportError::MalformedResponse(b)) && b@ == raw_body@,
            },
        },
{
    match success {
        Some(resp) => {
            if resp.choices.len() > 0 {
                Ok(resp.get_top_choice())
            } else {
                Err(TransportError::MalformedResponse(raw_body.to_owned()))
            }
        },
        None => match error {
            Some(e) => Err(
                TransportError::ApiError {
                    message: e.message,
                    error_type: e.error_type,
                    code: e.code,
                },
            ),
            None => Err(TransportError::MalformedResponse(raw_body.to_owned())),
        },
    }
}

} // verus!
