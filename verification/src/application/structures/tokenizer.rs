//! Requests to the embeddings service and what it answers.
//!
//! Embedding components are `f32`; the library carries each as the `u32`
//! of its IEEE-754 bit pattern (`f32::to_bits`).
use vstd::prelude::*;

verus! {

/// A text to embed, and the model it is embedded for.
#[derive(Debug)]
pub struct TokenizerInputForm {
    input: String,
    model: String,
}

/// The contents of a [`TokenizerInputForm`].
pub struct TokenizerInputFormView {
    pub input: Seq<char>,
    pub model: Seq<char>,
}

impl View for TokenizerInputForm {
    type V = TokenizerInputFormView;

    closed spec fn view(&self) -> TokenizerInputFormView {
        TokenizerInputFormView { input: self.input@, model: self.model@ }
    }
}

impl TokenizerInputForm {
    pub fn new(input: String, model: String) -> (form: Self)
        ensures
            form@ == (TokenizerInputFormView { input: input@, model: model@ }),
    {
        TokenizerInputForm { input, model }
    }

    pub fn input(&self) -> (r: &String)
        ensures
            r@ == self@.input,
    {
        &self.input
    }

    pub fn model(&self) -> (r: &String)
        ensures
            r@ == self@.model,
    {
        &self.model
    }
}

/// One embedding vector.
#[derive(Debug)]
pub struct TokensData {
    embedding: Vec<u32>,
}

impl View for TokensData {
    type V = Seq<u32>;

    closed spec fn view(&self) -> Seq<u32> {
        self.embedding@
    }
}

impl Clone for TokensData {
    fn clone(&self) -> (r: Self)
        ensures
            r@ == self@,
    {
        TokensData { embedding: self.embedding.clone() }
    }
}

impl TokensData {
    /// An embedding from the bit patterns of its components.
    pub fn new(embedding: Vec<u32>) -> (data: Self)
        ensures
            data@ == embedding@,
    {
        TokensData { embedding }
    }

    pub fn embedding(&self) -> (r: &Vec<u32>)
        ensures
            r@ == self@,
    {
        &self.embedding
    }
}

/// The embeddings of a text and the model they were computed for.
#[derive(Debug)]
pub struct TokenizedContent {
    model: String,
    data: Vec<TokensData>,
}

/// The contents of a [`TokenizedContent`].
pub struct TokenizedContentView {
    pub model: Seq<char>,
    pub data: Seq<Seq<u32>>,
}

impl View for TokenizedContent {
    type V = TokenizedContentView;

    closed spec fn view(&self) -> TokenizedContentView {
        TokenizedContentView {
            model: self.model@,
            data: self.data@.map_values(|d: TokensData| d@),
        }
    }
}

impl TokenizedContent {
    pub fn new(model: String, data: Vec<TokensData>) -> (content: Self)
        ensures
            content@ == (TokenizedContentView {
                model: model@,
                data: data@.map_values(|d: TokensData| d@),
            }),
    {
        TokenizedContent { model, data }
    }

    pub fn model(&self) -> (r: &String)
        ensures
            r@ == self@.model,
    {
        &self.model
    }

    pub fn data(&self) -> (r: &Vec<TokensData>)
        ensures
            r@.map_values(|d: TokensData| d@) == self@.data,
    {
        &self.data
    }
}

} // verus!
