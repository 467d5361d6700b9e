//! Requests to the sentence-transformers embeddings service and how its
//! answers become embeddings.
use vstd::prelude::*;

use crate::application::services::{TokenizeError, TokenizeResult};
use crate::application::structures::{
    TokenizedContent, TokenizedContentView, TokenizerInputForm, TokensData,
};

verus! {

/// The path, under the service's address, that computes embeddings.
pub const NATIVE_SERVICE_URL: &'static str =
    "/pipeline/feature-extraction/sentence-transformers/all-MiniLM-L6-v2";

/// How to reach the embeddings service.
#[derive(Debug)]
pub struct BgeConfig {
    address: String,
}

impl View for BgeConfig {
    type V = Seq<char>;

    /// The service's address.
    closed spec fn view(&self) -> Seq<char> {
        self.address@
    }
}

impl Clone for BgeConfig {
    fn clone(&self) -> (r: Self)
        ensures
            r@ == self@,
    {
        BgeConfig { address: self.address.clone() }
    }
}

impl BgeConfig {
    pub fn new(address: String) -> (c: Self)
        ensures
            c@ == address@,
    {
        BgeConfig { address }
    }

    pub fn address(&self) -> (r: &String)
        ensures
            r@ == self@,
    {
        &self.address
    }
}

/// The body of an embeddings request: the texts to embed.
#[derive(Debug)]
pub struct Request {
    inputs: Vec<String>,
}

impl View for Request {
    type V = Seq<Seq<char>>;

    closed spec fn view(&self) -> Seq<Seq<char>> {
        self.inputs@.map_values(|s: String| s@)
    }
}

impl Request {
    pub fn new(inputs: Vec<String>) -> (r: Self)
        ensures
            r@ == inputs@.map_values(|s: String| s@),
    {
        Request { inputs }
    }

    pub fn inputs(&self) -> (r: &Vec<String>)
        ensures
            r@.map_values(|s: String| s@) == self@,
    {
        &self.inputs
    }

    /// The request that embeds the input of `form`, alone.
    pub fn for_form(form: &TokenizerInputForm) -> (r: Self)
        ensures
            r@ == seq![form@.input],
    {
        let mut inputs = Vec::new();
        inputs.push(form.input().clone());
        Request { inputs }
    }
}

/// The address that embeddings requests are posted to.
pub fn embeddings_url(config: &BgeConfig) -> (url: String)
    ensures
        url@ == config@ + NATIVE_SERVICE_URL@,
{
    let mut url = config.address().clone();
    url.append(NATIVE_SERVICE_URL);
    url
}

/// The embedding that the service's answer holds: the first vector of the
/// first token of the first text, if the answer goes that deep.
pub open spec fn answer_embedding(answer: Seq<Seq<Seq<Seq<u32>>>>) -> Option<Seq<u32>> {
    if answer.len() > 0 && answer[0].len() > 0 && answer[0][0].len() > 0 {
        Some(answer[0][0][0])
    } else {
        None
    }
}

/// The view of a nested answer, level by level.
pub open spec fn answer_view(answer: Seq<Vec<Vec<Vec<u32>>>>) -> Seq<Seq<Seq<Seq<u32>>>> {
    answer.map_values(
        |a: Vec<Vec<Vec<u32>>>|
            a@.map_values(|b: Vec<Vec<u32>>| b@.map_values(|c: Vec<u32>| c@)),
    )
}

/// Turns the service's answer to `form` into its embeddings: the single
/// embedding that the answer holds, for the form's model; an empty answer
/// at any level is an error.
pub fn tokenized_content(form: &TokenizerInputForm, answer: &Vec<Vec<Vec<Vec<u32>>>>) -> (r:
    TokenizeResult<TokenizedContent>)
    ensures
        match answer_embedding(answer_view(answer@)) {
            Some(e) => r is Ok && r->Ok_0@ == (TokenizedContentView {
                model: form@.model,
                data: seq![e],
            }),
            None => r is Err && r->Err_0 is EmptyResponse,
        },
{
    let ghost av = answer_view(answer@);
    if answer.len() == 0 {
        return Err(TokenizeError::EmptyResponse);
    }
    let a = &answer[0];
    if a.len() == 0 {
        return Err(TokenizeError::EmptyResponse);
    }
    let b = &a[0];
    if b.len() == 0 {
        return Err(TokenizeError::EmptyResponse);
    }
    let embedding = b[0].clone();
    let mut data = Vec::new();
    data.push(TokensData::new(embedding));
    let content = TokenizedContent::new(form.model().clone(), data);
    assert(data@.map_values(|d: TokensData| d@) =~= seq![av[0][0][0]]);
    Ok(content)
}

} // verus!
