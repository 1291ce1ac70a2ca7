use llmify::prompts::format_prompt;
use llmify::prompts::instructions::BehaviourInstructions;
use llmify::prompts::prompt::MissingField;
use llmify::prompts::prompt::Prompt;
use llmify::prompts::templates::InstructionSelector;
use llmify::prompts::templates::SELF_CRITIQUE_TEXT;
use llmify::prompts::templates::TREE_OF_THOUGHTS_TEXT;

#[test]
fn build_succeeds_with_prefix_and_task() {
    let prompt = Prompt::new()
        .with_prefix("You are a helpful assistant.")
        .with_task("Say hi.")
        .build()
        .unwrap();
    assert_eq!(prompt.prefix, "You are a helpful assistant.");
    assert_eq!(prompt.task, "Say hi.");
    assert!(prompt.behaviour_instructions.is_none());
}

#[test]
fn build_fails_without_prefix() {
    let err = Prompt::new().with_task("Say hi.").build().unwrap_err();
    assert_eq!(err.missing_field, MissingField::Prefix);
    assert_eq!(err.message(), "No prefix provided");
}

#[test]
fn build_fails_without_task() {
    let err = Prompt::new().with_prefix("You are a helpful assistant.").build().unwrap_err();
    assert_eq!(err.missing_field, MissingField::Task);
    assert_eq!(err.message(), "No task provided");
}

#[test]
fn build_on_empty_builder_reports_task() {
    let err = Prompt::new().build().unwrap_err();
    assert_eq!(err.missing_field, MissingField::Task);
}

#[test]
fn builder_field_order_is_irrelevant() {
    let a = Prompt::new().with_prefix("p").with_task("t").build().unwrap();
    let b = Prompt::new().with_task("t").with_prefix("p").build().unwrap();
    assert_eq!(a.prefix, b.prefix);
    assert_eq!(a.task, b.task);
}

#[test]
fn builder_last_write_wins() {
    let prompt = Prompt::new()
        .with_prefix("first")
        .with_task("t")
        .with_prefix("second")
        .build()
        .unwrap();
    assert_eq!(prompt.prefix, "second");
}

#[test]
fn builder_carries_behaviour_instructions() {
    let instructions = BehaviourInstructions::new("format nicely", "STOP: ");
    let prompt = Prompt::new()
        .with_prefix("p")
        .with_task("t")
        .with_behaviour_instructions(&instructions)
        .build()
        .unwrap();
    let carried = prompt.behaviour_instructions.unwrap();
    assert_eq!(carried.instructions, "format nicely");
    assert_eq!(carried.output_token, "STOP: ");
}

#[test]
fn prompt_display_without_instructions() {
    let prompt = Prompt::new().with_prefix("p").with_task("t").build().unwrap();
    assert_eq!(prompt.display_string(), "p\nInput: t");
}

#[test]
fn prompt_display_with_instructions() {
    let instructions = BehaviourInstructions::new("ins", "T: ");
    let prompt = Prompt::new()
        .with_prefix("p")
        .with_task("t")
        .with_behaviour_instructions(&instructions)
        .build()
        .unwrap();
    assert_eq!(prompt.display_string(), "p\nins\nInput: t");
}

#[test]
fn behaviour_instructions_new_keeps_fields() {
    let instructions = BehaviourInstructions::new("some prose", "FINAL: ");
    assert_eq!(instructions.instructions, "some prose");
    assert_eq!(instructions.output_token, "FINAL: ");
    assert_eq!(instructions.display_string(), "some prose");
}

#[test]
fn self_critique_preset_matches_its_token() {
    let preset = InstructionSelector::self_critique();
    assert_eq!(preset.instructions, SELF_CRITIQUE_TEXT);
    assert_eq!(preset.output_token, "FINAL: ");
    assert!(preset.instructions.contains("FINAL:"));
}

#[test]
fn tree_of_thoughts_preset_matches_its_token() {
    let preset = InstructionSelector::tree_of_thoughts();
    assert_eq!(preset.instructions, TREE_OF_THOUGHTS_TEXT);
    assert_eq!(preset.output_token, "FINAL: ");
    assert!(preset.instructions.contains("FINAL:"));
}

#[test]
fn legacy_prompt_marks_task_with_input() {
    let prompt = llmify::prompts::Prompt::new("template text", "the task");
    assert_eq!(prompt.prompt, "template text");
    assert_eq!(prompt.task, "INPUT: the task");
}

#[test]
fn legacy_prompt_appends_trimmed_custom_instructions() {
    let prompt =
        llmify::prompts::Prompt::with_custom_instructions("template", "the task", "  be brief  ");
    assert_eq!(
        prompt.prompt,
        "template\n\nAddtionally, closely follow these instructions: be brief"
    );
    assert_eq!(prompt.task, "INPUT: the task");
}

#[test]
fn legacy_prompt_with_blank_custom_instructions() {
    let prompt = llmify::prompts::Prompt::with_custom_instructions("template", "t", " \t\n ");
    assert_eq!(prompt.prompt, "template\n\nAddtionally, closely follow these instructions: ");
}

#[test]
fn legacy_prompt_display() {
    let prompt = llmify::prompts::Prompt::new("template", "task");
    assert_eq!(prompt.display_string(), "template\n\nInput: INPUT: task");
}

#[test]
fn format_prompt_without_custom_instructions() {
    let joined = format_prompt("template", "the task", &None);
    assert_eq!(joined, "template\n\nInput: the task");
}

#[test]
fn format_prompt_appends_custom_instructions_verbatim() {
    let joined = format_prompt("template", "the task", &Some("  extra  ".to_string()));
    assert_eq!(joined, "template\n\nInput: the task  extra  ");
}
