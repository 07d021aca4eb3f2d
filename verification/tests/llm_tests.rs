use whisp_core::llm::prompt::{build_suggestion_prompt, system_prompt};
use whisp_core::llm::{suggestion_params, CollectStep, CompletionChunk, LlmError, SuggestionCollector};

#[test]
fn prompt_with_context() {
    assert_eq!(
        build_suggestion_prompt("helo wrld", Some("Inbox")),
        "Context (what the user sees on screen):\nInbox\n\nText being typed:\nhelo wrld\n\nSuggest an improved version:"
    );
}

#[test]
fn prompt_without_context() {
    assert_eq!(
        build_suggestion_prompt("helo wrld", None),
        "Text being typed:\nhelo wrld\n\nSuggest an improved version:"
    );
}

#[test]
fn system_prompt_text() {
    let s = system_prompt();
    assert!(s.starts_with("You are a writing assistant. Your task is to suggest improved versions of text the user"));
    assert!(s.ends_with("Do not add explanations or commentary — output only the improved text."));
    assert!(!s.contains('\n'));
}

#[test]
fn suggestion_request_parameters() {
    let p = suggestion_params("hi", Some("ctx"));
    assert_eq!(p.model, "");
    assert_eq!(p.prompt, build_suggestion_prompt("hi", Some("ctx")));
    assert_eq!(p.system.as_deref(), Some(system_prompt()));
    assert_eq!(p.context_text.as_deref(), Some("ctx"));
    assert_eq!(p.max_tokens, 200);
    assert_eq!(p.stop_sequences, vec!["\n\n".to_string()]);
    assert_eq!(suggestion_params("hi", None).context_text, None);
}

fn chunk(text: &str, done: bool) -> Option<Result<CompletionChunk, LlmError>> {
    Some(Ok(CompletionChunk { text: text.to_string(), done }))
}

#[test]
fn collector_joins_until_done() {
    let mut c = SuggestionCollector::new();
    assert!(matches!(c.accept(chunk("Hello", false)), CollectStep::Continue));
    assert!(matches!(c.accept(chunk(", ", false)), CollectStep::Continue));
    match c.accept(chunk("world", true)) {
        CollectStep::Finished(s) => assert_eq!(s, "Hello, world"),
        _ => panic!("expected the finished suggestion"),
    }
}

#[test]
fn collector_finishes_when_stream_ends() {
    let mut c = SuggestionCollector::new();
    c.accept(chunk("partial", false));
    match c.accept(None) {
        CollectStep::Finished(s) => assert_eq!(s, "partial"),
        _ => panic!("expected the finished suggestion"),
    }
}

#[test]
fn collector_passes_errors_on() {
    let mut c = SuggestionCollector::new();
    c.accept(chunk("x", false));
    match c.accept(Some(Err(LlmError::NetworkError("reset".to_string())))) {
        CollectStep::Failed(LlmError::NetworkError(m)) => assert_eq!(m, "reset"),
        _ => panic!("expected the error"),
    }
}

#[test]
fn llm_error_messages() {
    assert_eq!(LlmError::NotInstalled.message(), "Backend not installed");
    assert_eq!(LlmError::NotRunning.message(), "Backend not running");
    assert_eq!(LlmError::ModelNotFound("m".into()).message(), "Model not found: m");
    assert_eq!(LlmError::DownloadError("d".into()).message(), "Download failed: d");
    assert_eq!(LlmError::InferenceError("i".into()).message(), "Inference error: i");
    assert_eq!(LlmError::ProcessError("p".into()).message(), "Process error: p");
    assert_eq!(LlmError::NetworkError("n".into()).message(), "Network error: n");
}
