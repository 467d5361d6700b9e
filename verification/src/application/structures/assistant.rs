//! A question put to the assistant, and an answer it gives.
use vstd::prelude::*;

use crate::application::structures::prompt::PromptKind;

verus! {

/// A file attached to a question.
#[derive(Debug)]
pub struct CompletionFile {
    name: String,
    mime: String,
    data: Vec<u8>,
}

/// The contents of a [`CompletionFile`].
pub struct CompletionFileView {
    pub name: Seq<char>,
    pub mime: Seq<char>,
    pub data: Seq<u8>,
}

impl View for CompletionFile {
    type V = CompletionFileView;

    closed spec fn view(&self) -> CompletionFileView {
        CompletionFileView { name: self.name@, mime: self.mime@, data: self.data@ }
    }
}

impl Clone for CompletionFile {
    fn clone(&self) -> (r: Self)
        ensures
            r@ == self@,
    {
        CompletionFile { name: self.name.clone(), mime: self.mime.clone(), data: self.data.clone() }
    }
}

impl CompletionFile {
    pub fn new(name: String, mime: String, data: Vec<u8>) -> (file: Self)
        ensures
            file@ == (CompletionFileView { name: name@, mime: mime@, data: data@ }),
    {
        CompletionFile { name, mime, data }
    }

    pub fn name(&self) -> (r: &String)
        ensures
            r@ == self@.name,
    {
        &self.name
    }

    pub fn mime(&self) -> (r: &String)
        ensures
            r@ == self@.mime,
    {
        &self.mime
    }

    pub fn data(&self) -> (r: &Vec<u8>)
        ensures
            r@ == self@.data,
    {
        &self.data
    }
}

/// A question for the assistant: the query, the user who asks, an
/// attached file and the kind of system prompt that frames it.
#[derive(Debug)]
pub struct CompletionContext {
    query: String,
    user: Option<String>,
    attached_ctx: Option<CompletionFile>,
    prompt_kind: PromptKind,
}

/// The contents of a [`CompletionContext`].
pub struct CompletionContextView {
    pub query: Seq<char>,
    pub user: Option<Seq<char>>,
    pub attached_ctx: Option<CompletionFileView>,
    pub prompt_kind: PromptKind,
}

/// The view of an optional file.
pub open spec fn file_view(file: Option<CompletionFile>) -> Option<CompletionFileView> {
    match file {
        Some(f) => Some(f@),
        None => None,
    }
}

impl View for CompletionContext {
    type V = CompletionContextView;

    closed spec fn view(&self) -> CompletionContextView {
        CompletionContextView {
            query: self.query@,
            user: self.user.deep_view(),
            attached_ctx: file_view(self.attached_ctx),
            prompt_kind: self.prompt_kind,
        }
    }
}

impl Clone for CompletionContext {
    fn clone(&self) -> (r: Self)
        ensures
            r@ == self@,
    {
        let user = match &self.user {
            Some(u) => Some(u.clone()),
            None => None,
        };
        let attached_ctx = match &self.attached_ctx {
            Some(f) => Some(f.clone()),
            None => None,
        };
        CompletionContext {
            query: self.query.clone(),
            user,
            attached_ctx,
            prompt_kind: self.prompt_kind.clone(),
        }
    }
}

impl CompletionContext {
    /// Builds a question from all of its parts.
    pub fn new(
        query: String,
        user: Option<String>,
        attached_ctx: Option<CompletionFile>,
        prompt_kind: PromptKind,
    ) -> (ctx: Self)
        ensures
            ctx@ == (CompletionContextView {
                query: query@,
                user: user.deep_view(),
                attached_ctx: file_view(attached_ctx),
                prompt_kind,
            }),
    {
        CompletionContext { query, user, attached_ctx, prompt_kind }
    }

    pub fn query(&self) -> (r: &String)
        ensures
            r@ == self@.query,
    {
        &self.query
    }

    pub fn user(&self) -> (r: &Option<String>)
        ensures
            r.deep_view() == self@.user,
    {
        &self.user
    }

    pub fn attached_ctx(&self) -> (r: &Option<CompletionFile>)
        ensures
            file_view(*r) == self@.attached_ctx,
    {
        &self.attached_ctx
    }

    pub fn prompt_kind(&self) -> (r: &PromptKind)
        ensures
            *r == self@.prompt_kind,
    {
        &self.prompt_kind
    }
}

/// An answer of the assistant, whole or one chunk of a stream.
#[derive(Debug)]
pub struct CompletionResult {
    object: String,
    model: String,
    created: u32,
    content: String,
    name: Option<String>,
    refusal: Option<String>,
    tool_calls: Option<String>,
    tool_call_id: Option<String>,
    reasoning_content: Option<String>,
}

/// The contents of a [`CompletionResult`].
pub struct CompletionResultView {
    pub object: Seq<char>,
    pub model: Seq<char>,
    pub created: u32,
    pub content: Seq<char>,
    pub name: Option<Seq<char>>,
    pub refusal: Option<Seq<char>>,
    pub tool_calls: Option<Seq<char>>,
    pub tool_call_id: Option<Seq<char>>,
    pub reasoning_content: Option<Seq<char>>,
}

impl View for CompletionResult {
    type V = CompletionResultView;

    closed spec fn view(&self) -> CompletionResultView {
        CompletionResultView {
            object: self.object@,
            model: self.model@,
            created: self.created,
            content: self.content@,
            name: self.name.deep_view(),
            refusal: self.refusal.deep_view(),
            tool_calls: self.tool_calls.deep_view(),
            tool_call_id: self.tool_call_id.deep_view(),
            reasoning_content: self.reasoning_content.deep_view(),
        }
    }
}

impl CompletionResult {
    /// Builds an answer from all of its parts.
    pub fn new(
        object: String,
        model: String,
        created: u32,
        content: String,
        name: Option<String>,
        refusal: Option<String>,
        tool_calls: Option<String>,
        tool_call_id: Option<String>,
        reasoning_content: Option<String>,
    ) -> (r: Self)
        ensures
            r@ == (CompletionResultView {
                object: object@,
                model: model@,
                created,
                content: content@,
                name: name.deep_view(),
                refusal: refusal.deep_view(),
                tool_calls: tool_calls.deep_view(),
                tool_call_id: tool_call_id.deep_view(),
                reasoning_content: reasoning_content.deep_view(),
            }),
    {
        CompletionResult {
            object,
            model,
            created,
            content,
            name,
            refusal,
            tool_calls,
            tool_call_id,
            reasoning_content,
        }
    }

    pub fn object(&self) -> (r: &String)
        ensures
            r@ == self@.object,
    {
        &self.object
    }

    pub fn model(&self) -> (r: &String)
        ensures
            r@ == self@.model,
    {
        &self.model
    }

    pub fn created(&self) -> (r: u32)
        ensures
            r == self@.created,
    {
        self.created
    }

    pub fn content(&self) -> (r: &String)
        ensures
            r@ == self@.content,
    {
        &self.content
    }

    pub fn name(&self) -> (r: &Option<String>)
        ensures
            r.deep_view() == self@.name,
    {
        &self.name
    }

    pub fn refusal(&self) -> (r: &Option<String>)
        ensures
            r.deep_view() == self@.refusal,
    {
        &self.refusal
    }

    pub fn tool_calls(&self) -> (r: &Option<String>)
        ensures
            r.deep_view() == self@.tool_calls,
    {
        &self.tool_calls
    }

    pub fn tool_call_id(&self) -> (r: &Option<String>)
        ensures
            r.deep_view() == self@.tool_call_id,
    {
        &self.tool_call_id
    }

    pub fn reasoning_content(&self) -> (r: &Option<String>)
        ensures
            r.deep_view() == self@.reasoning_content,
    {
        &self.reasoning_content
    }
}

} // verus!
