use smart_committer::config::LLMConfig;
use smart_committer::draft::{
    draft_request, llm_draft_diff_message, ChatMessage, DraftStart, PromptBuilder, Role,
    MAX_TOKENS, PROMPT_HEAD, PROMPT_TAIL,
};

fn llm() -> LLMConfig {
    LLMConfig {
        base_url: "https://api.example.com/v1".to_string(),
        model: "gpt-4.1".to_string(),
        auth_token: Some("token".to_string()),
    }
}

#[test]
fn the_role_is_spelled_user() {
    assert_eq!(Role::User.as_text(), "user");
}

#[test]
fn the_prompt_holds_the_diff_as_it_is() {
    let diff = "diff --git a/x b/x\n+line";
    let message = PromptBuilder::build(diff);
    assert_eq!(message.role, Role::User);
    assert_eq!(message.content, format!("{}{}{}", PROMPT_HEAD, diff, PROMPT_TAIL));
    assert!(message.content.contains("diff --git a/x b/x\n+line"));
}

#[test]
fn the_prompt_asks_for_a_short_title_and_nothing_else() {
    assert!(PROMPT_HEAD.contains("at most 50 characters"));
    assert!(PROMPT_HEAD.contains("paragraph"));
    assert!(PROMPT_HEAD.contains("bullet"));
    assert!(PROMPT_HEAD.contains("without any other commentary"));
    assert_eq!(PROMPT_TAIL, "\n");
}

#[test]
fn the_prompt_is_made_for_the_empty_diff_too() {
    let message = PromptBuilder::build("");
    assert_eq!(message.content, format!("{}{}", PROMPT_HEAD, PROMPT_TAIL));
}

#[test]
fn the_token_budget_is_8192() {
    assert_eq!(MAX_TOKENS, 8192);
}

#[test]
fn the_request_goes_to_the_configured_model() {
    let request = draft_request("+line", &llm());
    assert_eq!(request.base_url, "https://api.example.com/v1");
    assert_eq!(request.model, "gpt-4.1");
    assert_eq!(request.auth_token, Some("token".to_string()));
    assert_eq!(request.max_tokens, 8192);
    assert!(!request.enable_thinking);
    assert_eq!(
        request.messages,
        vec![ChatMessage {
            role: Role::User,
            content: format!("{}+line{}", PROMPT_HEAD, PROMPT_TAIL),
        }]
    );
}

#[test]
fn the_request_may_go_without_a_token() {
    let config = LLMConfig {
        base_url: "http://localhost:8080".to_string(),
        model: "local".to_string(),
        auth_token: None,
    };
    let request = draft_request("+line", &config);
    assert_eq!(request.auth_token, None);
}

#[test]
fn the_empty_diff_makes_no_request() {
    assert_eq!(llm_draft_diff_message("", &llm()), DraftStart::EmptyDiff);
}

#[test]
fn white_space_alone_makes_no_request() {
    assert_eq!(llm_draft_diff_message(" \n\t \r\n", &llm()), DraftStart::EmptyDiff);
    assert_eq!(llm_draft_diff_message("\u{00A0}", &llm()), DraftStart::EmptyDiff);
}

#[test]
fn staged_changes_make_one_request() {
    let diff = "diff --git a/x b/x\n+line";
    assert_eq!(
        llm_draft_diff_message(diff, &llm()),
        DraftStart::Request { request: draft_request(diff, &llm()) }
    );
}
