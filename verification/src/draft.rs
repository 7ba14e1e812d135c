//! What is sent to the model: the prompt made from the staged changes, and
//! the request that carries it.

use crate::config::{LLMConfig, LLMConfigView};
use crate::text::{blank, copy_optional, is_blank, optional_text};
use vstd::prelude::*;
use vstd::string::*;

verus! {

/// Who speaks in a chat message. The drafting sends one message, and the
/// user is the one who speaks in it.
#[derive(Debug, Clone, Copy, PartialEq, Eq, Structural)]
pub enum Role {
    User,
}

impl Role {
    /// The name of the role as the chat endpoint spells it.
    pub open spec fn name(self) -> Seq<char> {
        "user"@
    }

    /// The name of the role as the chat endpoint spells it.
    pub fn as_text(&self) -> (name: &'static str)
        ensures
            name@ == self.name(),
    {
        "user"
    }
}

/// A message of the chat.
#[derive(Debug, Clone, PartialEq, Eq)]
pub struct ChatMessage {
    pub role: Role,
    pub content: String,
}

pub struct ChatMessageView {
    pub role: Role,
    pub content: Seq<char>,
}

impl View for ChatMessage {
    type V = ChatMessageView;

    open spec fn view(&self) -> ChatMessageView {
        ChatMessageView { role: self.role, content: self.content@ }
    }
}

/// The instructions that stand before the staged changes in the prompt.
pub const PROMPT_HEAD: &'static str =
    "Write a commit message for the staged changes below.\nThe first line is a title of at most 50 characters.\nAfter one empty line, describe the changes in a paragraph or in a list of bullet points.\nAnswer with the commit message alone, without any other commentary.\n\nStaged changes:\n";

/// What stands after the staged changes in the prompt.
pub const PROMPT_TAIL: &'static str = "\n";

/// The prompt for the given staged changes: they are put, as they are, into
/// the one fixed template.
pub open spec fn prompt_for(diff: Seq<char>) -> Seq<char> {
    PROMPT_HEAD@ + diff + PROMPT_TAIL@
}

/// Makes the message that asks the model for a commit message.
pub struct PromptBuilder {}

impl PromptBuilder {
    /// The user's message for the given staged changes. It is made for
    /// every text, the empty one too: whether the changes are worth a
    /// request is for the caller to decide.
    pub fn build(diff: &str) -> (message: ChatMessage)
        ensures
            message@ == (ChatMessageView { role: Role::User, content: prompt_for(diff@) }),
    {
        let mut content: String = PROMPT_HEAD.to_owned();
        content.append(diff);
        content.append(PROMPT_TAIL);
        ChatMessage { role: Role::User, content }
    }
}

/// The most tokens that the model may generate for one draft.
pub const MAX_TOKENS: usize = 8192;

/// One streaming chat-completion request.
#[derive(Debug, Clone, PartialEq, Eq)]
pub struct ChatRequest {
    /// Base URL of the server.
    pub base_url: String,
    /// Name of the model.
    pub model: String,
    /// Bearer token, where the server asks for one.
    pub auth_token: Option<String>,
    /// The messages of the chat so far.
    pub messages: Vec<ChatMessage>,
    /// The most tokens that the model may generate.
    pub max_tokens: usize,
    /// Whether the model may reason at length before it answers, where the
    /// server knows such a switch.
    pub enable_thinking: bool,
}

pub struct ChatRequestView {
    pub base_url: Seq<char>,
    pub model: Seq<char>,
    pub auth_token: Option<Seq<char>>,
    pub messages: Seq<ChatMessageView>,
    pub max_tokens: nat,
    pub enable_thinking: bool,
}

impl View for ChatRequest {
    type V = ChatRequestView;

    open spec fn view(&self) -> ChatRequestView {
        ChatRequestView {
            base_url: self.base_url@,
            model: self.model@,
            auth_token: optional_text(self.auth_token),
            messages: Seq::new(self.messages@.len(), |i: int| self.messages@[i]@),
            max_tokens: self.max_tokens as nat,
            enable_thinking: self.enable_thinking,
        }
    }
}

/// The request that drafts a message for the given staged changes: to the
/// configured server and model, with the one message of the prompt, at most
/// 8192 generated tokens and no reasoning at length.
pub open spec fn request_for(diff: Seq<char>, llm: LLMConfigView) -> ChatRequestView {
    ChatRequestView {
        base_url: llm.base_url,
        model: llm.model,
        auth_token: llm.auth_token,
        messages: seq![ChatMessageView { role: Role::User, content: prompt_for(diff) }],
        max_tokens: MAX_TOKENS as nat,
        enable_thinking: false,
    }
}

/// The request that drafts a message for the given staged changes.
pub fn draft_request(diff_content: &str, llm: &LLMConfig) -> (request: ChatRequest)
    ensures
        request@ == request_for(diff_content@, llm@),
{
    let mut messages: Vec<ChatMessage> = Vec::new();
    messages.push(PromptBuilder::build(diff_content));
    let request = ChatRequest {
        base_url: llm.base_url.clone(),
        model: llm.model.clone(),
        auth_token: copy_optional(&llm.auth_token),
        messages,
        max_tokens: MAX_TOKENS,
        enable_thinking: false,
    };
    assert(request@.messages =~= request_for(diff_content@, llm@).messages);
    request
}

/// How a drafting begins: with a request to the model, unless nothing is
/// staged.
#[derive(Debug, Clone, PartialEq, Eq)]
pub enum DraftStart {
    /// Nothing is staged: no request is made.
    EmptyDiff,
    /// The request to send.
    Request { request: ChatRequest },
}

pub enum DraftStartView {
    EmptyDiff,
    Request { request: ChatRequestView },
}

impl View for DraftStart {
    type V = DraftStartView;

    open spec fn view(&self) -> DraftStartView {
        match self {
            DraftStart::EmptyDiff => DraftStartView::EmptyDiff,
            DraftStart::Request { request } => DraftStartView::Request { request: request@ },
        }
    }
}

/// How the drafting begins for the given staged changes.
pub open spec fn draft_start(diff: Seq<char>, llm: LLMConfigView) -> DraftStartView {
    if blank(diff) {
        DraftStartView::EmptyDiff
    } else {
        DraftStartView::Request { request: request_for(diff, llm) }
    }
}

/// Begins the drafting of a message for the staged changes. Where they are
/// empty or white space only, nothing is asked of the model; else the result
/// is the one request to send.
pub fn llm_draft_diff_message(diff_content: &str, llm: &LLMConfig) -> (start: DraftStart)
    ensures
        start@ == draft_start(diff_content@, llm@),
{
    if is_blank(diff_content) {
        DraftStart::EmptyDiff
    } else {
        DraftStart::Request { request: draft_request(diff_content, llm) }
    }
}

/// Fail fast on nothing staged: for the empty text and for white space
/// alone the drafting makes no request, and for every other text it makes
/// one.
pub proof fn law_empty_diff_makes_no_request(diff: Seq<char>, llm: LLMConfigView)
    ensures
        diff.len() == 0 ==> draft_start(diff, llm) is EmptyDiff,
        blank(diff) <==> draft_start(diff, llm) is EmptyDiff,
        !blank(diff) <==> draft_start(diff, llm) is Request,
{
}

} // verus!
