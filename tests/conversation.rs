use gemini_chat::conversation::{BASE_URL, DEFAULT_MODEL, SUMMARY_INSTRUCTION, SUMMARY_REQUEST};
use gemini_chat::{Candidate, Content, Conversation, GeminiError, GenerateContentResponse, Part};

fn turn(text: &str, role: &str) -> Content {
    Content::new(text.to_string(), role)
}

fn response_with(texts: &[&[&str]]) -> GenerateContentResponse {
    let mut candidates = Vec::new();
    for parts in texts {
        let parts: Vec<Part> = parts.iter().map(|t| Part { text: t.to_string() }).collect();
        candidates.push(Candidate { content: Content { parts, role: "model".to_string() } });
    }
    GenerateContentResponse { candidates, model_version: "v1".to_string() }
}

fn transport_error() -> GeminiError {
    let e = reqwest::Client::new().get("not a url").build().unwrap_err();
    GeminiError::RequestError(e)
}

fn texts_and_roles(history: &[Content]) -> Vec<(Vec<String>, String)> {
    history
        .iter()
        .map(|c| (c.parts.iter().map(|p| p.text.clone()).collect(), c.role.clone()))
        .collect()
}

fn talk_ok(conv: &mut Conversation, text: &str, reply: &str) {
    let _request = conv.begin_talk(text.to_string());
    let r = conv.finish_talk(Ok(response_with(&[&[reply]])));
    assert!(r.is_ok());
}

#[test]
fn content_new_single_part() {
    let c = turn("hello", "user");
    assert_eq!(c.parts.len(), 1);
    assert_eq!(c.parts[0].text, "hello");
    assert_eq!(c.role, "user");
}

#[test]
fn content_clone_keeps_parts_and_role() {
    let c = Content {
        parts: vec![Part { text: "a".to_string() }, Part { text: "b".to_string() }],
        role: "model".to_string(),
    };
    let d = c.clone();
    assert_eq!(texts_and_roles(&[d]), texts_and_roles(&[c]));
}

#[test]
fn get_text_first_candidate_first_part() {
    let r = response_with(&[&["first", "second"], &["other"]]);
    match r.get_text() {
        Ok(t) => assert_eq!(t, "first"),
        Err(_) => panic!("expected text"),
    }
}

#[test]
fn get_text_no_candidates() {
    let r = response_with(&[]);
    assert!(matches!(r.get_text(), Err(GeminiError::NoCandidates)));
}

#[test]
fn get_text_candidate_without_parts() {
    let r = response_with(&[&[], &["later"]]);
    assert!(matches!(r.get_text(), Err(GeminiError::NoCandidates)));
}

#[test]
fn new_conversation_defaults() {
    let conv = Conversation::new("K".to_string());
    assert_eq!(conv.get_api_key(), "K");
    assert_eq!(conv.model(), "gemini-1.5-flash");
    assert_eq!(conv.model(), DEFAULT_MODEL);
    assert_eq!(conv.base_url(), "https://generativelanguage.googleapis.com/v1beta/");
    assert_eq!(conv.base_url(), BASE_URL);
    assert!(conv.history().is_empty());
    assert!(conv.system_instruction().is_none());
}

#[test]
fn endpoint_default() {
    let conv = Conversation::new("K".to_string());
    assert_eq!(
        conv.get_endpoint(),
        "https://generativelanguage.googleapis.com/v1beta/models/gemini-1.5-flash:generateContent?key=K"
    );
}

#[test]
fn talk_hello_scenario() {
    let mut conv = Conversation::new("K".to_string());
    let request = conv.begin_talk("hello".to_string());
    assert_eq!(request.model, "gemini-1.5-flash");
    assert_eq!(texts_and_roles(&request.contents), vec![(vec!["hello".to_string()], "user".to_string())]);
    assert!(request.system_instruction.is_none());
    let r = conv.finish_talk(Ok(response_with(&[&["hi"]])));
    match r {
        Ok(resp) => assert_eq!(resp.model_version, "v1"),
        Err(_) => panic!("expected a response"),
    }
    assert_eq!(
        texts_and_roles(conv.history()),
        vec![
            (vec!["hello".to_string()], "user".to_string()),
            (vec!["hi".to_string()], "model".to_string()),
        ]
    );
}

#[test]
fn history_grows_by_two_per_talk() {
    let mut conv = Conversation::new("K".to_string());
    for i in 0..5 {
        talk_ok(&mut conv, &format!("q{}", i), &format!("a{}", i));
        assert_eq!(conv.history().len(), 2 * (i + 1));
    }
    let h = texts_and_roles(conv.history());
    for i in 0..5 {
        assert_eq!(h[2 * i], (vec![format!("q{}", i)], "user".to_string()));
        assert_eq!(h[2 * i + 1], (vec![format!("a{}", i)], "model".to_string()));
    }
}

#[test]
fn request_carries_history_and_instruction() {
    let mut conv = Conversation::new("K".to_string());
    conv.set_system_instruction_text("be brief".to_string());
    talk_ok(&mut conv, "one", "two");
    let request = conv.begin_talk("three".to_string());
    assert_eq!(request.contents.len(), 3);
    assert_eq!(request.contents[2].parts[0].text, "three");
    let instr = request.system_instruction.expect("instruction");
    assert_eq!(texts_and_roles(&[instr]), vec![(vec!["be brief".to_string()], "system".to_string())]);
}

#[test]
fn failed_talk_keeps_user_turn() {
    let mut conv = Conversation::new("K".to_string());
    conv.begin_talk("hello".to_string());
    let r = conv.finish_talk(Err(transport_error()));
    assert!(matches!(r, Err(GeminiError::RequestError(_))));
    assert_eq!(texts_and_roles(conv.history()), vec![(vec!["hello".to_string()], "user".to_string())]);
}

#[test]
fn talk_without_candidates_fails() {
    let mut conv = Conversation::new("K".to_string());
    conv.begin_talk("hello".to_string());
    let r = conv.finish_talk(Ok(response_with(&[])));
    assert!(matches!(r, Err(GeminiError::NoCandidates)));
    assert_eq!(conv.history().len(), 1);
}

#[test]
fn system_instruction_overwrites() {
    let mut conv = Conversation::new("K".to_string());
    conv.set_system_instruction_text("first".to_string());
    conv.set_system_instruction_text("second".to_string());
    let instr = conv.system_instruction().as_ref().expect("instruction");
    assert_eq!(instr.parts.len(), 1);
    assert_eq!(instr.parts[0].text, "second");
    assert_eq!(instr.role, "system");
}

#[test]
fn summarizer_is_seeded_from_history() {
    let mut conv = Conversation::new("K".to_string());
    conv.set_system_instruction_text("outer".to_string());
    talk_ok(&mut conv, "q", "a");
    let scratch = conv.summarizer();
    assert_eq!(scratch.get_api_key(), "K");
    assert_eq!(texts_and_roles(scratch.history()), texts_and_roles(conv.history()));
    let instr = scratch.system_instruction().as_ref().expect("instruction");
    assert_eq!(instr.parts[0].text, SUMMARY_INSTRUCTION);
    assert_eq!(instr.role, "system");
}

#[test]
fn begin_summarize_sends_summary_request() {
    let mut conv = Conversation::new("K".to_string());
    talk_ok(&mut conv, "q", "a");
    let (scratch, request) = conv.begin_summarize();
    assert_eq!(scratch.history().len(), 3);
    assert_eq!(request.contents.len(), 3);
    assert_eq!(request.contents[2].parts[0].text, "Summarize the conversation");
    assert_eq!(request.contents[2].parts[0].text, SUMMARY_REQUEST);
    assert_eq!(request.contents[2].role, "user");
    assert_eq!(conv.history().len(), 2);
}

#[test]
fn summarize_replaces_history() {
    let mut conv = Conversation::new("K".to_string());
    talk_ok(&mut conv, "q1", "a1");
    talk_ok(&mut conv, "q2", "a2");
    let (mut scratch, _request) = conv.begin_summarize();
    let outcome = scratch.finish_talk(Ok(response_with(&[&["short"]])));
    assert!(conv.finish_summarize(outcome).is_ok());
    assert_eq!(texts_and_roles(conv.history()), vec![(vec!["short".to_string()], "model".to_string())]);
    assert_eq!(conv.get_api_key(), "K");
    assert_eq!(conv.model(), "gemini-1.5-flash");
}

#[test]
fn failed_summarize_leaves_history() {
    let mut conv = Conversation::new("K".to_string());
    talk_ok(&mut conv, "q1", "a1");
    let (mut scratch, _request) = conv.begin_summarize();
    let outcome = scratch.finish_talk(Err(transport_error()));
    assert!(matches!(conv.finish_summarize(outcome), Err(GeminiError::RequestError(_))));
    assert_eq!(conv.history().len(), 2);
    let (mut scratch, _request) = conv.begin_summarize();
    let outcome = scratch.finish_talk(Ok(response_with(&[])));
    assert!(matches!(conv.finish_summarize(outcome), Err(GeminiError::NoCandidates)));
    assert_eq!(conv.history().len(), 2);
}

#[test]
fn nested_instruction_independent() {
    let mut conv = Conversation::new("K".to_string());
    conv.set_system_instruction_text("outer".to_string());
    let mut scratch = conv.summarizer();
    scratch.set_system_instruction_text("changed".to_string());
    let instr = conv.system_instruction().as_ref().expect("instruction");
    assert_eq!(instr.parts[0].text, "outer");
    let inner = scratch.system_instruction().as_ref().expect("instruction");
    assert_eq!(inner.parts[0].text, "changed");
}
