use llmify::clients::interpret_response;
use llmify::clients::Choice;
use llmify::clients::Message;
use llmify::clients::OpenAIChatRequest;
use llmify::clients::OpenAIChatResponse;
use llmify::clients::OpenAIErrorResponse;
use llmify::clients::TransportError;
use llmify::models::openai::handle_reply;
use llmify::models::ExtractionError;
use llmify::models::GenerationCause;
use llmify::prompts::prompt::Prompt;
use llmify::prompts::templates::InstructionSelector;
use llmify::prompts::templates::ASK_QUESTION;
use llmify::prompts::templates::SUMMARIZE;

fn response_with(content: &str) -> OpenAIChatResponse {
    OpenAIChatResponse {
        id: "chatcmpl-1".to_string(),
        object: "chat.completion".to_string(),
        created: 0,
        choices: vec![Choice {
            index: 0,
            message: Message { role: "assistant".to_string(), content: content.to_string() },
            finish_reason: "stop".to_string(),
        }],
    }
}

#[test]
fn rendered_request_without_instructions() {
    let prompt = Prompt::new().with_prefix("prefix text").with_task("task text").build().unwrap();
    let request = OpenAIChatRequest::new("gpt-4", &prompt);
    assert_eq!(request.model, "gpt-4");
    assert_eq!(request.messages.len(), 2);
    assert_eq!(request.messages[0].role, "system");
    assert_eq!(request.messages[0].content, "prefix text");
    assert_eq!(request.messages[1].role, "user");
    assert_eq!(request.messages[1].content, "INPUT: task text");
}

#[test]
fn rendered_request_puts_instructions_before_prefix() {
    let preset = InstructionSelector::self_critique();
    let prompt = Prompt::new()
        .with_prefix("prefix text")
        .with_task("task text")
        .with_behaviour_instructions(&preset)
        .build()
        .unwrap();
    let request = OpenAIChatRequest::new("gpt-3.5-turbo", &prompt);
    let expected_system = format!("{}\n{}", preset.instructions, "prefix text");
    assert_eq!(request.messages[0].content, expected_system);
    assert!(request.messages[0].content.ends_with("prefix text"));
    assert_eq!(request.messages[1].content, "INPUT: task text");
}

#[test]
fn interpret_response_takes_top_choice() {
    let response = response_with("the reply");
    let out = interpret_response(Some(response), None, "raw").unwrap();
    assert_eq!(out, "the reply");
}

#[test]
fn interpret_response_without_choices_is_malformed() {
    let response = OpenAIChatResponse {
        id: "chatcmpl-1".to_string(),
        object: "chat.completion".to_string(),
        created: 0,
        choices: vec![],
    };
    let err = interpret_response(Some(response), None, "the raw body").unwrap_err();
    match err {
        TransportError::MalformedResponse(body) => assert_eq!(body, "the raw body"),
        other => panic!("expected MalformedResponse, got {:?}", other),
    }
}

#[test]
fn interpret_response_carries_api_error_fields() {
    let error = OpenAIErrorResponse {
        message: "Incorrect API key provided".to_string(),
        error_type: "invalid_request_error".to_string(),
        code: "invalid_api_key".to_string(),
    };
    let err = interpret_response(None, Some(error), "raw").unwrap_err();
    match err {
        TransportError::ApiError { message, error_type, code } => {
            assert_eq!(message, "Incorrect API key provided");
            assert_eq!(error_type, "invalid_request_error");
            assert_eq!(code, "invalid_api_key");
        }
        other => panic!("expected ApiError, got {:?}", other),
    }
}

#[test]
fn interpret_response_with_neither_shape_is_malformed() {
    let err = interpret_response(None, None, "<html>bad gateway</html>").unwrap_err();
    match err {
        TransportError::MalformedResponse(body) => assert_eq!(body, "<html>bad gateway</html>"),
        other => panic!("expected MalformedResponse, got {:?}", other),
    }
}

#[test]
fn ask_with_tree_of_thoughts_extracts_final_answer() {
    let preset = InstructionSelector::tree_of_thoughts();
    let prompt = Prompt::new()
        .with_prefix(ASK_QUESTION)
        .with_task("What is 2+2?")
        .with_behaviour_instructions(&preset)
        .build()
        .unwrap();
    let request = OpenAIChatRequest::new("gpt-3.5-turbo", &prompt);
    assert!(request.messages[0].content.starts_with(&preset.instructions));
    let reply = response_with("Expert one says 4. Expert two agrees. FINAL: 4");
    let out = handle_reply(Some(reply), None, "raw", &prompt.behaviour_instructions).unwrap();
    assert_eq!(out, "4");
}

#[test]
fn summarize_without_preset_returns_reply_unchanged() {
    let prompt = Prompt::new()
        .with_prefix(SUMMARIZE)
        .with_task("Some long text.")
        .build()
        .unwrap();
    let reply = response_with("The text discusses X.");
    let out = handle_reply(Some(reply), None, "raw", &prompt.behaviour_instructions).unwrap();
    assert_eq!(out, "The text discusses X.");
}

#[test]
fn self_critique_without_marker_reports_token_not_found() {
    let preset = InstructionSelector::self_critique();
    let reply = response_with("I simply answered without the requested format.");
    let err = handle_reply(Some(reply), None, "raw", &Some(preset)).unwrap_err();
    match err.0 {
        GenerationCause::Extraction(ExtractionError::TokenNotFound(token)) => {
            assert_eq!(token, "FINAL: ");
        }
        other => panic!("expected TokenNotFound, got {:?}", other),
    }
}

#[test]
fn api_error_payload_is_reported_as_transport_error() {
    let error = OpenAIErrorResponse {
        message: "Rate limit reached".to_string(),
        error_type: "requests".to_string(),
        code: "rate_limit_exceeded".to_string(),
    };
    let err = handle_reply(None, Some(error), "raw", &None).unwrap_err();
    match &err.0 {
        GenerationCause::Transport(TransportError::ApiError { message, error_type, code }) => {
            assert_eq!(message, "Rate limit reached");
            assert_eq!(error_type, "requests");
            assert_eq!(code, "rate_limit_exceeded");
        }
        other => panic!("expected ApiError, got {:?}", other),
    }
    assert_eq!(
        err.message(),
        "GenerationError: Failed to send request to OpenAI API: Rate limit reached"
    );
}

#[test]
fn transport_error_messages() {
    let network = TransportError::Network("connection refused".to_string());
    assert_eq!(network.message(), "Failed to send request to OpenAI API: connection refused");
    let malformed = TransportError::MalformedResponse("{}".to_string());
    assert_eq!(malformed.message(), "Failed to deserialize error response from OpenAI API: {}");
}
