//! The chat completion requests sent to the language model, and how its
//! replies and streamed chunks become answers.
use vstd::prelude::*;

use crate::application::services::{AssistantError, AssistantResult, LlmApiError};
use crate::application::structures::{
    CompletionContext, CompletionContextView, CompletionResult, CompletionResultView,
};
use crate::text::{decimal, decimal_string};

verus! {

/// The project that requests to the language model are sent under.
pub const OPENAI_PROJECT_NAME: &'static str = "rag-assistant";

/// The organization that requests to the language model are sent under.
pub const OPENAI_ORGANIZATION_NAME: &'static str = "rag";

/// The participant name of the system message.
pub const ASSISTANT_SYSTEM_PROMPT: &'static str = "system";

/// The participant name of the user message.
pub const ASSISTANT_USER_PROMPT: &'static str = "user";

/// The user that a question without one is asked as.
pub const DEFAULT_USER: &'static str = "guest";

/// How to reach the language model.
#[derive(Debug)]
pub struct OpenaiConfig {
    api_key: String,
    base_url: String,
    model_name: String,
}

/// The contents of an [`OpenaiConfig`].
pub struct OpenaiConfigView {
    pub api_key: Seq<char>,
    pub base_url: Seq<char>,
    pub model_name: Seq<char>,
}

impl View for OpenaiConfig {
    type V = OpenaiConfigView;

    closed spec fn view(&self) -> OpenaiConfigView {
        OpenaiConfigView {
            api_key: self.api_key@,
            base_url: self.base_url@,
            model_name: self.model_name@,
        }
    }
}

impl Clone for OpenaiConfig {
    fn clone(&self) -> (r: Self)
        ensures
            r@ == self@,
    {
        OpenaiConfig {
            api_key: self.api_key.clone(),
            base_url: self.base_url.clone(),
            model_name: self.model_name.clone(),
        }
    }
}

impl OpenaiConfig {
    pub fn new(api_key: String, base_url: String, model_name: String) -> (c: Self)
        ensures
            c@ == (OpenaiConfigView {
                api_key: api_key@,
                base_url: base_url@,
                model_name: model_name@,
            }),
    {
        OpenaiConfig { api_key, base_url, model_name }
    }

    pub fn api_key(&self) -> (r: &String)
        ensures
            r@ == self@.api_key,
    {
        &self.api_key
    }

    pub fn base_url(&self) -> (r: &String)
        ensures
            r@ == self@.base_url,
    {
        &self.base_url
    }

    pub fn model_name(&self) -> (r: &String)
        ensures
            r@ == self@.model_name,
    {
        &self.model_name
    }
}

/// The role of a message in a chat request.
#[derive(Debug, PartialEq, Eq, Structural)]
pub enum ChatRole {
    System,
    User,
}

/// A message of a chat request: its role, participant name and text.
#[derive(Debug)]
pub struct ChatMessageData {
    pub role: ChatRole,
    pub name: String,
    pub content: String,
}

/// A chat completion request: the user, the model, the messages and
/// whether the answer is streamed.
#[derive(Debug)]
pub struct ChatRequest {
    pub user: String,
    pub model: String,
    pub messages: Vec<ChatMessageData>,
    pub stream: bool,
}

/// The request that asks `ctx` of `model`: the system message holds the
/// prompt of the question's kind, the user message its query, and the
/// request is made as the question's user, or as `guest` without one.
pub open spec fn chat_request_ok(
    ctx: CompletionContextView,
    model: Seq<char>,
    stream: bool,
    r: ChatRequest,
) -> bool {
    &&& r.user@ == match ctx.user {
        Some(u) => u,
        None => DEFAULT_USER@,
    }
    &&& r.model@ == model
    &&& r.stream == stream
    &&& r.messages@.len() == 2
    &&& r.messages@[0].role == ChatRole::System
    &&& r.messages@[0].name@ == ASSISTANT_SYSTEM_PROMPT@
    &&& r.messages@[0].content@ == ctx.prompt_kind.prompt_text()
    &&& r.messages@[1].role == ChatRole::User
    &&& r.messages@[1].name@ == ASSISTANT_USER_PROMPT@
    &&& r.messages@[1].content@ == ctx.query
}

/// Builds the request that asks `ctx` of `model`, streamed or whole.
pub fn chat_request(ctx: &CompletionContext, model: &String, stream: bool) -> (r: ChatRequest)
    ensures
        chat_request_ok(ctx@, model@, stream, r),
{
    let system = ChatMessageData {
        role: ChatRole::System,
        name: ASSISTANT_SYSTEM_PROMPT.to_string(),
        content: ctx.prompt_kind().get_prompt(),
    };
    let user_message = ChatMessageData {
        role: ChatRole::User,
        name: ASSISTANT_USER_PROMPT.to_string(),
        content: ctx.query().clone(),
    };
    let user = match ctx.user() {
        Some(u) => u.clone(),
        None => DEFAULT_USER.to_string(),
    };
    let mut messages = Vec::new();
    messages.push(system);
    messages.push(user_message);
    ChatRequest { user, model: model.clone(), messages, stream }
}

/// The message of the first choice of a whole reply.
#[derive(Debug)]
pub enum ReplyMessage {
    /// An assistant message: its text, if any, and its participant name.
    Assistant { content: Option<String>, name: Option<String> },
    /// A message of any other role.
    Other,
}

/// A whole reply of the language model.
#[derive(Debug)]
pub struct ChatReply {
    pub object: String,
    pub model: String,
    pub created: u32,
    /// The message of the first choice, if the reply has a choice.
    pub first_message: Option<ReplyMessage>,
}

/// A reply on which building the answer does not fail outright: an
/// assistant message in the first choice carries text.
pub open spec fn reply_has_content(reply: ChatReply) -> bool {
    match reply.first_message {
        Some(ReplyMessage::Assistant { content, .. }) => content is Some,
        _ => true,
    }
}

/// The answer that a reply gives: the text and name of the assistant
/// message in the first choice, with the reply's object, model and time;
/// with no choice, or another message there, a stream error.
pub open spec fn reply_outcome(reply: ChatReply, r: AssistantResult<CompletionResult>) -> bool {
    match reply.first_message {
        Some(ReplyMessage::Assistant { content: Some(c), name }) => r is Ok && r->Ok_0@
            == (CompletionResultView {
            object: reply.object@,
            model: reply.model@,
            created: reply.created,
            content: c@,
            name: name.deep_view(),
            refusal: None,
            tool_calls: None,
            tool_call_id: None,
            reasoning_content: None,
        }),
        _ => r is Err && r->Err_0 is StreamError && r->Err_0.detail() == "empty response"@,
    }
}

/// Turns a whole reply of the language model into the answer.
pub fn completion_from_reply(reply: ChatReply) -> (r: AssistantResult<CompletionResult>)
    requires
        reply_has_content(reply),
    ensures
        reply_outcome(reply, r),
{
    let ChatReply { object, model, created, first_message } = reply;
    match first_message {
        Some(ReplyMessage::Assistant { content: Some(c), name }) => {
            Ok(CompletionResult::new(object, model, created, c, name, None, None, None, None))
        },
        _ => Err(AssistantError::StreamError("empty response".to_string())),
    }
}

/// The message of the first choice of a streamed chunk, with the variants
/// of `openai_dive`'s `DeltaChatMessage`; each text is what the message's
/// content prints.
#[derive(Debug)]
pub enum DeltaMessage {
    Developer { content: String, name: Option<String> },
    System { content: String, name: Option<String> },
    User { content: String, name: Option<String> },
    Tool { content: String, tool_call_id: String },
    Assistant {
        content: Option<String>,
        reasoning_content: Option<String>,
        refusal: Option<String>,
        name: Option<String>,
    },
    Untagged {
        content: Option<String>,
        reasoning_content: Option<String>,
        refusal: Option<String>,
        name: Option<String>,
        tool_call_id: Option<String>,
    },
}

/// A chunk of a streamed reply.
#[derive(Debug)]
pub struct ChunkReply {
    pub object: String,
    pub model: String,
    pub created: u32,
    /// The message of the first choice, if the chunk has a choice.
    pub first_delta: Option<DeltaMessage>,
}

impl LlmApiError {
    /// What the error prints: its message, after the status code for an
    /// unknown error.
    pub open spec fn text(self) -> Seq<char> {
        match self {
            LlmApiError::AuthenticationError(m) => m@,
            LlmApiError::BadRequestError(m) => m@,
            LlmApiError::PermissionError(m) => m@,
            LlmApiError::NotFoundError(m) => m@,
            LlmApiError::GoneError(m) => m@,
            LlmApiError::ServerError(m) => m@,
            LlmApiError::InvalidRequestError(m) => m@,
            LlmApiError::RateLimitError(m) => m@,
            LlmApiError::ParseError(m) => m@,
            LlmApiError::FileError(m) => m@,
            LlmApiError::StreamError(m) => m@,
            LlmApiError::WebSocketError(m) => m@,
            LlmApiError::UnknownError(code, m) => decimal(code as nat) + ": "@ + m@,
        }
    }

    /// Prints the error.
    pub fn to_string(&self) -> (r: String)
        ensures
            r@ == self.text(),
    {
        match self {
            LlmApiError::AuthenticationError(m) => m.clone(),
            LlmApiError::BadRequestError(m) => m.clone(),
            LlmApiError::PermissionError(m) => m.clone(),
            LlmApiError::NotFoundError(m) => m.clone(),
            LlmApiError::GoneError(m) => m.clone(),
            LlmApiError::ServerError(m) => m.clone(),
            LlmApiError::InvalidRequestError(m) => m.clone(),
            LlmApiError::RateLimitError(m) => m.clone(),
            LlmApiError::ParseError(m) => m.clone(),
            LlmApiError::FileError(m) => m.clone(),
            LlmApiError::StreamError(m) => m.clone(),
            LlmApiError::WebSocketError(m) => m.clone(),
            LlmApiError::UnknownError(code, m) => {
                let mut r = decimal_string(*code as u64);
                r.append(": ");
                r.append(m.as_str());
                r
            },
        }
    }
}

/// A chunk from which an answer is built without failing outright: an
/// error, or a chunk whose first choice holds an assistant message or an
/// untagged one. (Every other chunk leaves fields of the answer unset.)
pub open spec fn chunk_completes(response: Result<ChunkReply, LlmApiError>) -> bool {
    match response {
        Err(_) => true,
        Ok(chunk) => match chunk.first_delta {
            Some(DeltaMessage::Assistant { .. }) => true,
            Some(DeltaMessage::Untagged { .. }) => true,
            _ => false,
        },
    }
}

/// The text of an optional content, empty without one.
pub open spec fn text_or_empty(content: Option<String>) -> Seq<char> {
    match content {
        Some(c) => c@,
        None => Seq::empty(),
    }
}

/// The answer that a streamed chunk gives: for an error, an incorrect
/// response type that quotes it; otherwise the chunk's object, model and
/// time with the text, name, refusal and reasoning of the message in its
/// first choice, and the tool call id of an untagged message.
pub open spec fn chunk_outcome(
    response: Result<ChunkReply, LlmApiError>,
    r: AssistantResult<CompletionResult>,
) -> bool {
    match response {
        Err(e) => r is Err && r->Err_0 is IncorrectResponseType && r->Err_0.detail() == "api error: "@
            + e.text(),
        Ok(chunk) => match chunk.first_delta {
            Some(DeltaMessage::Assistant { content, reasoning_content, refusal, name }) => r is Ok
                && r->Ok_0@ == (CompletionResultView {
                object: chunk.object@,
                model: chunk.model@,
                created: chunk.created,
                content: text_or_empty(content),
                name: name.deep_view(),
                refusal: refusal.deep_view(),
                tool_calls: None,
                tool_call_id: None,
                reasoning_content: reasoning_content.deep_view(),
            }),
            Some(
                DeltaMessage::Untagged { content, reasoning_content, refusal, name, tool_call_id },
            ) => r is Ok && r->Ok_0@ == (CompletionResultView {
                object: chunk.object@,
                model: chunk.model@,
                created: chunk.created,
                content: text_or_empty(content),
                name: name.deep_view(),
                refusal: refusal.deep_view(),
                tool_calls: None,
                tool_call_id: tool_call_id.deep_view(),
                reasoning_content: reasoning_content.deep_view(),
            }),
            _ => false,
        },
    }
}

/// Tells whether an answer can be built from a streamed chunk.
pub fn chunk_is_complete(response: &Result<ChunkReply, LlmApiError>) -> (b: bool)
    ensures
        b == chunk_completes(*response),
{
    match response {
        Err(_) => true,
        Ok(chunk) => match &chunk.first_delta {
            Some(DeltaMessage::Assistant { .. }) => true,
            Some(DeltaMessage::Untagged { .. }) => true,
            _ => false,
        },
    }
}

/// Turns a streamed chunk of the language model's reply into an answer.
pub fn extract_chunk_response(response: Result<ChunkReply, LlmApiError>) -> (r: AssistantResult<
    CompletionResult,
>)
    requires
        chunk_completes(response),
    ensures
        chunk_outcome(response, r),
{
    match response {
        Err(e) => {
            let mut m = "api error: ".to_string();
            let t = e.to_string();
            m.append(t.as_str());
            Err(AssistantError::IncorrectResponseType(m))
        },
        Ok(chunk) => {
            let ChunkReply { object, model, created, first_delta } = chunk;
            match first_delta {
                Some(DeltaMessage::Assistant { content, reasoning_content, refusal, name }) => {
                    let text = match content {
                        Some(c) => c,
                        None => String::new(),
                    };
                    Ok(
                        CompletionResult::new(
                            object,
                            model,
                            created,
                            text,
                            name,
                            refusal,
                            None,
                            None,
                            reasoning_content,
                        ),
                    )
                },
                Some(
                    DeltaMessage::Untagged {
                        content,
                        reasoning_content,
                        refusal,
                        name,
                        tool_call_id,
                    },
                ) => {
                    let text = match content {
                        Some(c) => c,
                        None => String::new(),
                    };
                    Ok(
                        CompletionResult::new(
                            object,
                            model,
                            created,
                            text,
                            name,
                            refusal,
                            None,
                            tool_call_id,
                            reasoning_content,
                        ),
                    )
                },
                _ => {
                    proof {
                        assert(false);
                    }
                    Err(AssistantError::StreamError(String::new()))
                },
            }
        },
    }
}

} // verus!

verus! {

/// A question asked whole and the same question streamed send the same
/// user, model and messages; only the stream flag differs.
pub proof fn lemma_whole_and_streamed_requests_agree(
    ctx: CompletionContextView,
    model: Seq<char>,
    whole: ChatRequest,
    streamed: ChatRequest,
)
    requires
        chat_request_ok(ctx, model, false, whole),
        chat_request_ok(ctx, model, true, streamed),
    ensures
        whole.user@ == streamed.user@,
        whole.model@ == streamed.model@,
        whole.messages@.len() == streamed.messages@.len(),
        forall|i: int|
            #![trigger whole.messages@[i]]
            0 <= i < whole.messages@.len() ==> whole.messages@[i].role == streamed.messages@[i].role
                && whole.messages@[i].name@ == streamed.messages@[i].name@
                && whole.messages@[i].content@ == streamed.messages@[i].content@,
        !whole.stream,
        streamed.stream,
{
    assert forall|i: int| #![trigger whole.messages@[i]] 0 <= i < whole.messages@.len() implies
        whole.messages@[i].role == streamed.messages@[i].role && whole.messages@[i].name@
            == streamed.messages@[i].name@ && whole.messages@[i].content@
            == streamed.messages@[i].content@ by {}
}

} // verus!

verus! {

/// The system message of a request carries the prompt of the question's
/// own kind: the simple, few-shot or chain-of-thought prompt, or the
/// custom text; the user message carries the query.
pub proof fn lemma_request_uses_question_prompt(
    ctx: CompletionContextView,
    model: Seq<char>,
    stream: bool,
    r: ChatRequest,
)
    requires
        chat_request_ok(ctx, model, stream, r),
    ensures
        r.messages@.len() == 2,
        r.messages@[0].role == ChatRole::System,
        r.messages@[0].content@ == match ctx.prompt_kind {
            crate::application::structures::PromptKind::Simple =>
                crate::application::structures::SYSTEM_SIMPLE_PROMPT@,
            crate::application::structures::PromptKind::FewShot =>
                crate::application::structures::SYSTEM_PROMPT_FEW_SHOT@,
            crate::application::structures::PromptKind::ChainOfThought =>
                crate::application::structures::SYSTEM_PROMPT_CHAIN_OF_THOUGHT@,
            crate::application::structures::PromptKind::Custom(c) => c@,
        },
        r.messages@[1].role == ChatRole::User,
        r.messages@[1].content@ == ctx.query,
{
}

/// A whole reply whose first choice is an assistant message with text is
/// answered, whatever the message's participant name: the answer carries
/// that text, the name as it is (none included), and the reply's object,
/// model and time. A reply with no choice, or another message there, is
/// refused.
pub proof fn lemma_reply_with_text_is_answered(reply: ChatReply, r: AssistantResult<CompletionResult>)
    requires
        reply_outcome(reply, r),
    ensures
        match reply.first_message {
            Some(ReplyMessage::Assistant { content: Some(c), name }) => {
                &&& r is Ok
                &&& r->Ok_0@.content == c@
                &&& r->Ok_0@.name == name.deep_view()
                &&& r->Ok_0@.object == reply.object@
                &&& r->Ok_0@.model == reply.model@
                &&& r->Ok_0@.created == reply.created
            },
            _ => r is Err,
        },
{
}

/// The answer to a streamed chunk whose first choice is an assistant or an
/// untagged message carries the text of that message's content, empty only
/// when it has none, whatever its tool call id, name, refusal or reasoning;
/// those it copies as they are.
pub proof fn lemma_chunk_answer_keeps_text(
    response: Result<ChunkReply, LlmApiError>,
    r: AssistantResult<CompletionResult>,
)
    requires
        chunk_outcome(response, r),
    ensures
        match response {
            Ok(chunk) => match chunk.first_delta {
                Some(DeltaMessage::Assistant { content, reasoning_content, refusal, name }) => {
                    &&& r is Ok
                    &&& r->Ok_0@.content == match content {
                        Some(c) => c@,
                        None => Seq::<char>::empty(),
                    }
                    &&& r->Ok_0@.name == name.deep_view()
                    &&& r->Ok_0@.refusal == refusal.deep_view()
                    &&& r->Ok_0@.reasoning_content == reasoning_content.deep_view()
                    &&& r->Ok_0@.tool_call_id == None::<Seq<char>>
                },
                Some(
                    DeltaMessage::Untagged { content, reasoning_content, refusal, name, tool_call_id },
                ) => {
                    &&& r is Ok
                    &&& r->Ok_0@.content == match content {
                        Some(c) => c@,
                        None => Seq::<char>::empty(),
                    }
                    &&& r->Ok_0@.name == name.deep_view()
                    &&& r->Ok_0@.refusal == refusal.deep_view()
                    &&& r->Ok_0@.reasoning_content == reasoning_content.deep_view()
                    &&& r->Ok_0@.tool_call_id == tool_call_id.deep_view()
                },
                _ => true,
            },
            Err(_) => r is Err,
        },
{
}

} // verus!
