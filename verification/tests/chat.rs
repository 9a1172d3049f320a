use genai::adapter::AdapterKind;
use genai::chat::{ChatResponse, ChatRole, MessageContent, MetaUsage};
use genai::ModelIden;
use modifai_resume::chat::{chat_request, reply_text, SYSTEM_INSTRUCTION};
use modifai_resume::pipeline::{Action, Event, OverwritePolicy, Pipeline};
use std::path::PathBuf;

fn response_with(content: Option<MessageContent>) -> ChatResponse {
    ChatResponse {
        content,
        reasoning_content: None,
        model_iden: ModelIden::new(AdapterKind::Gemini, "gemini-2.0-pro-exp-02-05"),
        usage: MetaUsage::default(),
    }
}

#[test]
fn system_instruction_is_the_fixed_text() {
    assert_eq!(
        SYSTEM_INSTRUCTION,
        "Very strictly follow the rules provided by the user in their request"
    );
}

#[test]
fn chat_request_holds_the_instruction_and_then_the_prompt() {
    let request = chat_request(String::from("tailor this"));
    assert_eq!(request.messages.len(), 2);
    assert!(matches!(request.messages[0].role, ChatRole::System));
    assert_eq!(request.messages[0].content.text_as_str(), Some(SYSTEM_INSTRUCTION));
    assert!(matches!(request.messages[1].role, ChatRole::User));
    assert_eq!(request.messages[1].content.text_as_str(), Some("tailor this"));
}

#[test]
fn chat_request_sets_nothing_else() {
    let request = chat_request(String::new());
    assert!(request.system.is_none());
    assert!(request.tools.is_none());
    assert_eq!(request.messages[1].content.text_as_str(), Some(""));
}

#[test]
fn reply_text_is_the_text_or_empty() {
    assert_eq!(reply_text(Some(String::from("```latex\nbody```"))), "```latex\nbody```");
    assert_eq!(reply_text(Some(String::new())), "");
    assert_eq!(reply_text(None), "");
}

#[test]
fn replied_takes_the_text_of_an_answer() {
    let response = response_with(Some(MessageContent::from_text("the answer")));
    match Event::replied(Ok(response)) {
        Event::Replied(Ok(Some(text))) => assert_eq!(text, "the answer"),
        other => panic!("unexpected: {:?}", other),
    }
}

#[test]
fn replied_takes_an_answer_without_text_as_none() {
    assert!(matches!(Event::replied(Ok(response_with(None))), Event::Replied(Ok(None))));
    let parts = response_with(Some(MessageContent::Parts(Vec::new())));
    assert!(matches!(Event::replied(Ok(parts)), Event::Replied(Ok(None))));
}

#[test]
fn replied_hands_a_failure_on() {
    let event = Event::replied(Err(genai::Error::JsonModeWithoutInstruction));
    assert!(matches!(
        event,
        Event::Replied(Err(genai::Error::JsonModeWithoutInstruction))
    ));
}

#[test]
fn replied_keeps_the_text_unchanged() {
    let text = "```latex\n\\name{Zoë} → ok```";
    let response = response_with(Some(MessageContent::from_text(text)));
    match Event::replied(Ok(response)) {
        Event::Replied(Ok(Some(kept))) => assert_eq!(kept, text),
        other => panic!("unexpected: {:?}", other),
    }
}

#[test]
fn answer_of_the_service_is_cut_and_written() {
    let waiting = Pipeline::AwaitingReply {
        output: PathBuf::from("out.tex"),
        policy: OverwritePolicy::Allow,
    };
    let response = response_with(Some(MessageContent::from_text("```latex\nthe body```")));
    let (next, action) = waiting.step(Event::replied(Ok(response)));
    assert!(matches!(next, Pipeline::WritingOutput));
    match action {
        Action::WriteOutput { path, contents } => {
            assert_eq!(path, PathBuf::from("out.tex"));
            assert_eq!(contents, "the body");
        },
        other => panic!("unexpected: {:?}", other),
    }
}

#[test]
fn answer_without_text_is_written_as_an_empty_document() {
    let waiting = Pipeline::AwaitingReply {
        output: PathBuf::from("out.tex"),
        policy: OverwritePolicy::Allow,
    };
    let (_, action) = waiting.step(Event::replied(Ok(response_with(None))));
    match action {
        Action::WriteOutput { contents, .. } => assert_eq!(contents, ""),
        other => panic!("unexpected: {:?}", other),
    }
}
