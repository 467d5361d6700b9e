//! The decisions of the chat completion use case: how a streamed question
//! is grounded in the documents that a similarity search finds, and how a
//! document is split into chunks that are embedded and stored one by one.
//!
//! The calls to the assistant, the embeddings service and the storage are
//! asynchronous requests; their callers await them and hand the answers to
//! the functions here, which decide what to request next.
use vstd::prelude::*;

use character_text_splitter::CharacterTextSplitter;

use crate::application::services::{AssistantError, StorageError, TokenizeError};
use crate::application::structures::{
    CompletionContext, CompletionContextView, CreateDocument,
    SearchParams, SearchResult, TokenizedContent, TokenizerInputForm, TokenizerInputFormView,
    TokensData,
};
use crate::text::{
    decimal, decimal_string, join, join_offset, lemma_join_len, lemma_join_offset_monotonic,
    lemma_join_places_lines, trim, trim_string,
};

verus! {

/// How far consecutive chunks of a stored document overlap, in bytes.
pub const CHUNK_OVERLAP: usize = 60;

/// The size that a chunk of a stored document does not exceed, in bytes,
/// unless one paragraph alone is longer.
pub const CHUNK_SIZE: usize = 600;

/// How many documents ground a streamed question at most.
pub const SEARCH_LIMIT: u64 = 2;

/// The chunks into which `CharacterTextSplitter` (separator `"\n\n"`,
/// the given chunk size and overlap) splits a text.
pub uninterp spec fn split_text_chunks(
    text: Seq<char>,
    chunk_size: usize,
    chunk_overlap: usize,
) -> Seq<Seq<char>>;

/// Calls `character_text_splitter::CharacterTextSplitter::split_text` with
/// the default separator `"\n\n"` and the given chunk size and overlap. The
/// chunks are a function of the text, the size and the overlap alone, named
/// `split_text_chunks`; nothing more is claimed of them. The splitter also
/// prints a notice to standard output when one paragraph alone exceeds the
/// chunk size.
#[verifier::external_body]
fn split_text(text: &str, chunk_size: usize, chunk_overlap: usize) -> (chunks: Vec<String>)
    ensures
        chunks@.map_values(|c: String| c@) == split_text_chunks(text@, chunk_size, chunk_overlap),
{
    CharacterTextSplitter::new().with_chunk_size(chunk_size).with_chunk_overlap(
        chunk_overlap,
    ).split_text(text)
}

/// The chunks of a document's content that are embedded and stored.
pub open spec fn document_chunks(content: Seq<char>) -> Seq<Seq<char>> {
    split_text_chunks(content, CHUNK_SIZE, CHUNK_OVERLAP)
}

// ---------------------------------------------------------------------
// A streamed question
// ---------------------------------------------------------------------

/// The form that embeds the query of a streamed question for `model`.
pub fn stream_tokenizer_form(ctx: &CompletionContext, model: String) -> (form: TokenizerInputForm)
    ensures
        form@ == (TokenizerInputFormView { input: ctx@.query, model: model@ }),
{
    TokenizerInputForm::new(ctx.query().clone(), model)
}

/// The assistant error that answers a failure to embed the query of a
/// streamed question.
pub fn stream_tokenize_error(err: &TokenizeError) -> (r: AssistantError)
    ensures
        r is StreamError,
        r.detail() == err.description(),
{
    AssistantError::StreamError(err.to_string())
}

/// The vector that a streamed question is searched with: the first
/// embedding of its query, or no components at all when there is none.
pub open spec fn first_embedding(data: Seq<Seq<u32>>) -> Seq<u32> {
    if data.len() > 0 {
        data[0]
    } else {
        Seq::empty()
    }
}

/// The search that finds the documents for a streamed question.
pub fn stream_search_params(collection: String, tokens: &TokenizedContent) -> (params: SearchParams)
    ensures
        params.collection@ == collection@,
        params.vector@ == first_embedding(tokens@.data),
        params.limit == SEARCH_LIMIT,
{
    let data = tokens.data();
    let vector = if data.len() > 0 {
        data[0].embedding().clone()
    } else {
        Vec::new()
    };
    SearchParams { collection, vector, limit: SEARCH_LIMIT }
}

/// The assistant error that answers a failed search for the documents of a
/// streamed question.
pub fn stream_search_error(err: &StorageError) -> (r: AssistantError)
    ensures
        r is StreamError,
        r.detail() == "failed to search test tokens: "@ + err.description(),
{
    let mut m = "failed to search test tokens: ".to_string();
    let d = err.to_string();
    m.append(d.as_str());
    AssistantError::StreamError(m)
}

/// The line that cites the document found at `index`: its number in
/// brackets, its title and its trimmed text.
pub open spec fn context_line(index: nat, title: Seq<char>, payload: Seq<char>) -> Seq<char> {
    "["@ + decimal(index) + "] "@ + title + " - "@ + trim(payload) + " "@
}

/// The lines that cite the documents found, one per document, in order.
pub open spec fn context_lines(results: Seq<SearchResult>) -> Seq<Seq<char>> {
    Seq::new(
        results.len(),
        |i: int| context_line(i as nat, results[i].title@, results[i].payload@),
    )
}

/// The documents block of a grounded question: the citing lines joined by
/// line breaks.
pub open spec fn documents_text(results: Seq<SearchResult>) -> Seq<char> {
    join(context_lines(results), "\n"@)
}

/// The query that grounds `query` in the documents found.
pub open spec fn grounded_query(results: Seq<SearchResult>, query: Seq<char>) -> Seq<char> {
    "### Documents: "@ + documents_text(results) + "\n\nQuestion: "@ + query
}

fn context_line_string(index: usize, result: &SearchResult) -> (line: String)
    ensures
        line@ == context_line(index as nat, result.title@, result.payload@),
{
    let mut line = "[".to_string();
    let digits = decimal_string(index as u64);
    line.append(digits.as_str());
    line.append("] ");
    line.append(result.title.as_str());
    line.append(" - ");
    let trimmed = trim_string(result.payload.as_str());
    line.append(trimmed.as_str());
    line.append(" ");
    line
}

/// Writes the documents block that cites the documents found.
pub fn documents_context(results: &Vec<SearchResult>) -> (text: String)
    ensures
        text@ == documents_text(results@),
{
    let ghost lines = context_lines(results@);
    let mut text = String::new();
    let n = results.len();
    for i in 0..n
        invariant
            n == results@.len(),
            lines == context_lines(results@),
            text@ == join(lines.take(i as int), "\n"@),
    {
        let line = context_line_string(i, &results[i]);
        assert(lines.take(i + 1).drop_last() =~= lines.take(i as int));
        if i != 0 {
            text.append("\n");
        } else {
            assert(lines.take(1) =~= seq![line@]);
        }
        text.append(line.as_str());
    }
    assert(lines.take(n as int) =~= lines);
    text
}

/// The question that the assistant streams an answer to: the query
/// asked, grounded in the documents found, with no user and no attached
/// file, framed by the same kind of prompt.
pub fn grounded_context(ctx: &CompletionContext, results: &Vec<SearchResult>) -> (r: CompletionContext)
    ensures
        r@ == (CompletionContextView {
            query: grounded_query(results@, ctx@.query),
            user: None,
            attached_ctx: None,
            prompt_kind: ctx@.prompt_kind,
        }),
{
    let mut query = "### Documents: ".to_string();
    let documents = documents_context(results);
    query.append(documents.as_str());
    query.append("\n\nQuestion: ");
    query.append(ctx.query().as_str());
    CompletionContext::new(query, None, None, ctx.prompt_kind().clone())
}

// ---------------------------------------------------------------------
// Storing a document
// ---------------------------------------------------------------------

/// The storage error that answers a failure to embed a chunk.
pub fn storage_error_of_tokenize(err: &TokenizeError) -> (r: StorageError)
    ensures
        r.detail() == err.description(),
{
    StorageError::InternalError(err.to_string())
}

/// What storing a document asks for next.
#[derive(Debug)]
pub enum StoreStep {
    /// Embed this form, the next chunk, and hand the embedding back.
    Tokenize(TokenizerInputForm),
    /// Every chunk is stored; the document's id is the answer.
    Finished(String),
}

/// The storing of one document, chunk by chunk: which chunks it has and how
/// many of them are stored.
pub struct StoreDocumentJob {
    doc_id: String,
    file_path: String,
    model: String,
    chunks: Vec<String>,
    next: usize,
}

/// The contents of a [`StoreDocumentJob`].
pub struct StoreDocumentJobView {
    pub doc_id: Seq<char>,
    pub file_path: Seq<char>,
    pub model: Seq<char>,
    pub chunks: Seq<Seq<char>>,
    pub next: nat,
}

impl View for StoreDocumentJob {
    type V = StoreDocumentJobView;

    closed spec fn view(&self) -> StoreDocumentJobView {
        StoreDocumentJobView {
            doc_id: self.doc_id@,
            file_path: self.file_path@,
            model: self.model@,
            chunks: self.chunks@.map_values(|c: String| c@),
            next: self.next as nat,
        }
    }
}

impl StoreDocumentJobView {
    /// What the job asks for next: the form that embeds the next chunk with
    /// the job's model, or, when every chunk is stored, the document's id.
    pub open spec fn step_ok(self, step: StoreStep) -> bool {
        match step {
            StoreStep::Tokenize(form) => self.next < self.chunks.len() && form@
                == (TokenizerInputFormView { input: self.chunks[self.next as int], model: self.model }),
            StoreStep::Finished(id) => self.next >= self.chunks.len() && id@ == self.doc_id,
        }
    }

    /// The chunk document that the job stores for its next chunk with the
    /// given embedding: the document's id, its file path as both title and
    /// path, and the chunk as content.
    pub open spec fn chunk_document_ok(self, doc: CreateDocument, embedding: Seq<u32>) -> bool {
        &&& doc.doc_id@ == self.doc_id
        &&& doc.title@ == self.file_path
        &&& doc.file_path@ == self.file_path
        &&& doc.content@ == self.chunks[self.next as int]
        &&& doc.embeddings@ == embedding
    }

    /// The job after its next chunk is stored.
    pub open spec fn advanced(self) -> StoreDocumentJobView {
        StoreDocumentJobView { next: self.next + 1, ..self }
    }
}

impl StoreDocumentJob {
    #[verifier::type_invariant]
    spec fn inv(self) -> bool {
        self.next <= self.chunks.len()
    }

    /// Starts storing `doc` with embeddings of `model`: its content is split
    /// into chunks, of which none is stored yet.
    pub fn new(doc: &CreateDocument, model: &String) -> (job: Self)
        ensures
            job@ == (StoreDocumentJobView {
                doc_id: doc.doc_id@,
                file_path: doc.file_path@,
                model: model@,
                chunks: document_chunks(doc.content@),
                next: 0,
            }),
    {
        let chunks = split_text(doc.content.as_str(), CHUNK_SIZE, CHUNK_OVERLAP);
        StoreDocumentJob::from_chunks(doc, model, chunks)
    }

    /// Starts storing `doc` with embeddings of `model`, as the given chunks
    /// of its content, of which none is stored yet.
    pub fn from_chunks(doc: &CreateDocument, model: &String, chunks: Vec<String>) -> (job: Self)
        ensures
            job@ == (StoreDocumentJobView {
                doc_id: doc.doc_id@,
                file_path: doc.file_path@,
                model: model@,
                chunks: chunks@.map_values(|c: String| c@),
                next: 0,
            }),
    {
        StoreDocumentJob {
            doc_id: doc.doc_id.clone(),
            file_path: doc.file_path.clone(),
            model: model.clone(),
            chunks,
            next: 0,
        }
    }

    /// What the job asks for next.
    pub fn next_step(&self) -> (step: StoreStep)
        ensures
            self@.step_ok(step),
    {
        proof {
            use_type_invariant(self);
        }
        if self.next < self.chunks.len() {
            let chunk = self.chunks[self.next].clone();
            StoreStep::Tokenize(TokenizerInputForm::new(chunk, self.model.clone()))
        } else {
            StoreStep::Finished(self.doc_id.clone())
        }
    }

    /// Takes the embedding of the next chunk and gives the chunk document
    /// to store; the chunk counts as stored from then on. The embedding is
    /// the first one of `tokens`.
    pub fn chunk_document(&mut self, tokens: &TokenizedContent) -> (doc: CreateDocument)
        requires
            old(self)@.next < old(self)@.chunks.len(),
            tokens@.data.len() > 0,
        ensures
            old(self)@.chunk_document_ok(doc, tokens@.data[0]),
            doc.embeddings@ == tokens@.data[0],
            doc.content@ == old(self)@.chunks[old(self)@.next as int],
            doc.doc_id@ == old(self)@.doc_id,
            final(self)@ == old(self)@.advanced(),
    {
        proof {
            use_type_invariant(&*self);
        }
        let data = tokens.data();
        let embeddings = data[0].embedding().clone();
        let doc = CreateDocument {
            doc_id: self.doc_id.clone(),
            title: self.file_path.clone(),
            file_path: self.file_path.clone(),
            content: self.chunks[self.next].clone(),
            embeddings,
        };
        self.next = self.next + 1;
        doc
    }
}

} // verus!

verus! {

/// The job after `k` more chunks are stored.
pub open spec fn advanced_by(v: StoreDocumentJobView, k: nat) -> StoreDocumentJobView {
    StoreDocumentJobView { next: v.next + k, ..v }
}

/// Storing a document embeds its chunks one by one, in the order in which
/// the splitter gives them, each with the job's model; once every chunk is
/// stored, the job answers with the document's id.
pub proof fn lemma_store_job_order(v: StoreDocumentJobView, k: nat, step: StoreStep)
    requires
        v.next == 0,
        k <= v.chunks.len(),
        advanced_by(v, k).step_ok(step),
    ensures
        k < v.chunks.len() ==> step is Tokenize && step->Tokenize_0@ == (TokenizerInputFormView {
            input: v.chunks[k as int],
            model: v.model,
        }),
        k == v.chunks.len() ==> step is Finished && step->Finished_0@ == v.doc_id,
{
}

/// Every chunk document of a job carries the document's id, has the
/// document's file path as both title and path, and has as content the
/// chunk whose turn it is; stored one after the other, the chunk documents
/// hold the chunks in order.
pub proof fn lemma_store_job_documents(
    v: StoreDocumentJobView,
    k: nat,
    doc: CreateDocument,
    embedding: Seq<u32>,
)
    requires
        v.next == 0,
        k < v.chunks.len(),
        advanced_by(v, k).chunk_document_ok(doc, embedding),
    ensures
        doc.doc_id@ == v.doc_id,
        doc.title@ == v.file_path,
        doc.file_path@ == v.file_path,
        doc.content@ == v.chunks[k as int],
        doc.embeddings@ == embedding,
        advanced_by(v, k).advanced() == advanced_by(v, k + 1),
{
}

/// The chunk document that a job stores carries, component by component
/// and in order, the first embedding that the embeddings service returned
/// for that chunk.
pub proof fn lemma_chunk_document_embedding(
    v: StoreDocumentJobView,
    doc: CreateDocument,
    tokens: crate::application::structures::TokenizedContentView,
)
    requires
        tokens.data.len() > 0,
        v.chunk_document_ok(doc, tokens.data[0]),
    ensures
        doc.embeddings@.len() == tokens.data[0].len(),
        forall|j: int|
            0 <= j < doc.embeddings@.len() ==> #[trigger] doc.embeddings@[j] == tokens.data[0][j],
{
}

/// Every document found is cited in the grounded question, in the order
/// of the search: document `i` appears as the line
/// `[i] <title> - <trimmed text> `, at its own place after the header
/// `### Documents: `, and the line of document `i + 1` starts right after
/// it and one line break.
pub proof fn lemma_grounded_query_cites_every_result(
    results: Seq<SearchResult>,
    query: Seq<char>,
    i: int,
)
    requires
        0 <= i < results.len(),
    ensures
        ({
            let line = "["@ + decimal(i as nat) + "] "@ + results[i].title@ + " - "@ + trim(
                results[i].payload@,
            ) + " "@;
            let start = 15 + join_offset(context_lines(results), 1, i as nat) as int;
            &&& grounded_query(results, query).subrange(start, start + line.len()) == line
            &&& i + 1 < results.len() ==> start + line.len() + 1 == 15 + join_offset(
                context_lines(results),
                1,
                (i + 1) as nat,
            )
        }),
{
    reveal_strlit("### Documents: ");
    reveal_strlit("\n");
    let lines = context_lines(results);
    let g = grounded_query(results, query);
    let d = documents_text(results);
    lemma_join_places_lines(lines, "\n"@, i);
    let o = join_offset(lines, 1, i as nat) as int;
    let line = lines[i];
    assert(g == "### Documents: "@ + d + ("\n\nQuestion: "@ + query));
    assert(o + line.len() <= d.len()) by {
        lemma_join_len(lines, "\n"@);
        lemma_join_offset_monotonic(lines, 1, (i + 1) as nat, lines.len());
    }
    assert(g.subrange(15 + o, 15 + o + line.len()) =~= d.subrange(o, o + line.len()));
}

/// A grounded question starts with the documents block and ends with the
/// query that was asked, whatever documents were found.
pub proof fn lemma_grounded_query_ends_with_query(results: Seq<SearchResult>, query: Seq<char>)
    ensures
        grounded_query(results, query).subrange(
            grounded_query(results, query).len() - query.len(),
            grounded_query(results, query).len() as int,
        ) == query,
        grounded_query(results, query).subrange(0, 15) == "### Documents: "@,
{
    let g = grounded_query(results, query);
    assert(g.subrange(g.len() - query.len(), g.len() as int) =~= query);
    reveal_strlit("### Documents: ");
    assert(g.subrange(0, 15) =~= "### Documents: "@);
}

} // verus!
