//! The forms that HTTP requests carry, and what they become.
use vstd::prelude::*;

use crate::application::structures::{
    CompletionContext, CompletionContextView, CreateDocument, PromptKind,
};
use crate::text::{is_uuid_v4_text, new_uuid_v4_text};

verus! {

/// The body of a question.
#[derive(Debug)]
pub struct AskSimpleForm {
    pub query: String,
    pub prompt: Option<String>,
}

/// The query string of a question: the kind of prompt that frames it.
#[derive(Debug)]
pub struct AskSimpleQuery {
    pub kind: Option<PromptKindForm>,
}

/// The kind of prompt as a request names it.
#[derive(Debug)]
pub enum PromptKindForm {
    Simple,
    FewShot,
    ChainOfThought,
    Custom(String),
}

impl Default for PromptKindForm {
    fn default() -> (r: Self)
        ensures
            r == PromptKindForm::Simple,
    {
        PromptKindForm::Simple
    }
}

/// The prompt kind that a request names.
pub open spec fn prompt_kind_of_form(form: PromptKindForm) -> PromptKind {
    match form {
        PromptKindForm::Simple => PromptKind::Simple,
        PromptKindForm::FewShot => PromptKind::FewShot,
        PromptKindForm::ChainOfThought => PromptKind::ChainOfThought,
        PromptKindForm::Custom(content) => PromptKind::Custom(content),
    }
}

impl From<PromptKindForm> for PromptKind {
    fn from(form: PromptKindForm) -> (r: Self) {
        match form {
            PromptKindForm::Simple => PromptKind::Simple,
            PromptKindForm::FewShot => PromptKind::FewShot,
            PromptKindForm::ChainOfThought => PromptKind::ChainOfThought,
            PromptKindForm::Custom(content) => PromptKind::Custom(content),
        }
    }
}

impl vstd::std_specs::convert::FromSpecImpl<PromptKindForm> for PromptKind {
    open spec fn obeys_from_spec() -> bool {
        true
    }

    open spec fn from_spec(form: PromptKindForm) -> PromptKind {
        prompt_kind_of_form(form)
    }
}

/// The question that a request asks: the body's query, as no particular
/// user and with no attached file, framed by the prompt kind that the
/// query string names, or by the simple prompt when it names none.
pub fn ask_context(form: AskSimpleForm, query: AskSimpleQuery) -> (ctx: CompletionContext)
    ensures
        ctx@ == (CompletionContextView {
            query: form.query@,
            user: None,
            attached_ctx: None,
            prompt_kind: match query.kind {
                Some(k) => prompt_kind_of_form(k),
                None => PromptKind::Simple,
            },
        }),
{
    let kind = match query.kind {
        Some(k) => k,
        None => PromptKindForm::default(),
    };
    let prompt_kind = PromptKind::from(kind);
    CompletionContext::new(form.query, None, None, prompt_kind)
}

/// The body of a request to store a document.
#[derive(Debug)]
pub struct CreateDocumentForm {
    title: String,
    file_path: String,
    content: String,
}

/// The contents of a [`CreateDocumentForm`].
pub struct CreateDocumentFormView {
    pub title: Seq<char>,
    pub file_path: Seq<char>,
    pub content: Seq<char>,
}

impl View for CreateDocumentForm {
    type V = CreateDocumentFormView;

    closed spec fn view(&self) -> CreateDocumentFormView {
        CreateDocumentFormView {
            title: self.title@,
            file_path: self.file_path@,
            content: self.content@,
        }
    }
}

impl CreateDocumentForm {
    pub fn new(title: String, file_path: String, content: String) -> (f: Self)
        ensures
            f@ == (CreateDocumentFormView {
                title: title@,
                file_path: file_path@,
                content: content@,
            }),
    {
        CreateDocumentForm { title, file_path, content }
    }

    pub fn title(&self) -> (r: &String)
        ensures
            r@ == self@.title,
    {
        &self.title
    }

    pub fn file_path(&self) -> (r: &String)
        ensures
            r@ == self@.file_path,
    {
        &self.file_path
    }

    pub fn content(&self) -> (r: &String)
        ensures
            r@ == self@.content,
    {
        &self.content
    }
}

impl CreateDocument {
    /// The document that a request asks to store, under the id `doc_id`,
    /// with no embedding yet.
    pub fn from_form_with_id(form: CreateDocumentForm, doc_id: String) -> (doc: CreateDocument)
        ensures
            doc.doc_id@ == doc_id@,
            doc.title@ == form@.title,
            doc.file_path@ == form@.file_path,
            doc.content@ == form@.content,
            doc.embeddings@ == Seq::<u32>::empty(),
    {
        CreateDocument {
            doc_id,
            title: form.title,
            file_path: form.file_path,
            content: form.content,
            embeddings: Vec::new(),
        }
    }

    /// The document that a request asks to store, under a fresh random
    /// (version 4) UUID.
    pub fn from_form(form: CreateDocumentForm) -> (doc: CreateDocument)
        ensures
            is_uuid_v4_text(doc.doc_id@),
            doc.title@ == form@.title,
            doc.file_path@ == form@.file_path,
            doc.content@ == form@.content,
            doc.embeddings@ == Seq::<u32>::empty(),
    {
        let doc_id = new_uuid_v4_text();
        CreateDocument::from_form_with_id(form, doc_id)
    }
}

} // verus!

verus! {

/// A request that names a custom prompt gets exactly that text as the
/// system prompt; a request that names a built-in kind gets that kind's
/// fixed prompt.
pub proof fn lemma_requested_prompt_text(form: PromptKindForm)
    ensures
        prompt_kind_of_form(form).prompt_text() == match form {
            PromptKindForm::Simple => crate::application::structures::SYSTEM_SIMPLE_PROMPT@,
            PromptKindForm::FewShot => crate::application::structures::SYSTEM_PROMPT_FEW_SHOT@,
            PromptKindForm::ChainOfThought => crate::application::structures::SYSTEM_PROMPT_CHAIN_OF_THOUGHT@,
            PromptKindForm::Custom(c) => c@,
        },
{
}

} // verus!
