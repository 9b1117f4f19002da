use narrator_console::transcript::Role;
use narrator_console::transcript::Turn;
use narrator_console::wire::build_messages;
use narrator_console::wire::build_prompt;
use narrator_console::wire::error_text;
use narrator_console::wire::error_turn_content;
use narrator_console::wire::request_url;
use narrator_console::wire::settle_response;
use narrator_console::wire::wire_label;
use narrator_console::wire::CompletionError;
use narrator_console::wire::Config;
use narrator_console::wire::WireRole;
use narrator_console::wire::MAX_REPLY_TOKENS;
use narrator_console::wire::SYSTEM_PROMPT;

fn turn(role: Role, content: &str) -> Turn {
    Turn { role, content: content.to_string() }
}

fn config() -> Config {
    Config { endpoint: "http://x/v1".to_string(), model: "m".to_string(), api_key: None }
}

#[test]
fn messages_start_with_persona_and_map_roles() {
    let turns = vec![turn(Role::Narrator, "intro"), turn(Role::User, "hi")];
    let msgs = build_messages(&turns);
    assert_eq!(msgs.len(), 3);
    assert_eq!(msgs[0].role, WireRole::System);
    assert_eq!(msgs[0].content, SYSTEM_PROMPT);
    assert_eq!(msgs[1].role, WireRole::Assistant);
    assert_eq!(msgs[1].content, "intro");
    assert_eq!(msgs[2].role, WireRole::User);
    assert_eq!(msgs[2].content, "hi");
}

#[test]
fn system_turns_are_filtered_out() {
    let turns = vec![turn(Role::System, "hidden"), turn(Role::User, "hi")];
    let msgs = build_messages(&turns);
    assert_eq!(msgs.len(), 2);
    assert!(msgs.iter().all(|m| m.content != "hidden"));
}

#[test]
fn wire_labels() {
    assert_eq!(wire_label(WireRole::System), "system");
    assert_eq!(wire_label(WireRole::User), "user");
    assert_eq!(wire_label(WireRole::Assistant), "assistant");
}

#[test]
fn prompt_carries_model_and_cap() {
    let p = build_prompt(&config(), &vec![turn(Role::User, "hi")]);
    assert_eq!(p.model, "m");
    assert_eq!(p.max_tokens, MAX_REPLY_TOKENS);
    assert_eq!(p.max_tokens, 512);
    assert_eq!(p.messages.len(), 2);
}

#[test]
fn url_appends_completions_path() {
    assert_eq!(request_url(&config()), "http://x/v1/chat/completions");
}

#[test]
fn settle_success_extracts_first_choice() {
    let body = r#"{"choices":[{"message":{"content":"hi there"}}]}"#.to_string();
    let r = settle_response(200, body);
    assert_eq!(r.unwrap(), "hi there");
}

#[test]
fn settle_success_ignores_extra_fields() {
    let body = r#"{"id":"x","choices":[{"index":0,"message":{"role":"assistant","content":"ok"}},{"message":{"content":"second"}}],"usage":{}}"#
        .to_string();
    let r = settle_response(299, body);
    assert_eq!(r.unwrap(), "ok");
}

#[test]
fn settle_non_success_is_api_error() {
    let r = settle_response(500, "boom".to_string());
    match r {
        Err(CompletionError::ApiError { status, body }) => {
            assert_eq!(status, 500);
            assert_eq!(body, "boom");
        }
        other => panic!("expected ApiError, got {:?}", other),
    }
}

#[test]
fn settle_malformed_body_is_parse_error() {
    assert!(matches!(settle_response(200, "boom".to_string()), Err(CompletionError::ParseError)));
    assert!(matches!(
        settle_response(200, r#"{"nochoices":1}"#.to_string()),
        Err(CompletionError::ParseError)
    ));
    assert!(matches!(
        settle_response(200, r#"{"choices":[{"message":{}}]}"#.to_string()),
        Err(CompletionError::ParseError)
    ));
}

#[test]
fn settle_empty_choices_is_empty_response() {
    assert!(matches!(
        settle_response(200, r#"{"choices":[]}"#.to_string()),
        Err(CompletionError::EmptyResponse)
    ));
}

#[test]
fn error_texts() {
    assert_eq!(
        error_text(&CompletionError::ApiError { status: 500, body: "boom".to_string() }),
        "API error 500: boom"
    );
    assert_eq!(
        error_text(&CompletionError::ConnectionFailed("refused".to_string())),
        "Connection failed: refused"
    );
    assert_eq!(error_text(&CompletionError::ParseError), "Parse error");
    assert_eq!(error_text(&CompletionError::EmptyResponse), "Empty response");
}

#[test]
fn failure_turn_is_in_character_and_keeps_detail() {
    let c = error_turn_content(&CompletionError::ApiError { status: 500, body: "boom".to_string() });
    assert!(c.contains("boom"));
    assert!(c.contains("API error"));
    assert!(c.starts_with("[ The narrator's voice crackles ]"));
    assert!(c.ends_with("Shall we try again?"));
}
