use architecture_quantumforge_software::application::services::{
    AssistantError, LlmApiError, ServerError, StorageError, Success, TokenizeError,
};
use architecture_quantumforge_software::application::structures::{
    CompletionContext, CompletionFile, CreateDocument, PromptKind, SearchResult, TokenizedContent,
    TokenizerInputForm, TokensData, SYSTEM_PROMPT_CHAIN_OF_THOUGHT, SYSTEM_PROMPT_FEW_SHOT,
    SYSTEM_SIMPLE_PROMPT,
};
use architecture_quantumforge_software::application::usecase::{
    documents_context, grounded_context, storage_error_of_tokenize, stream_search_error,
    stream_search_params, stream_tokenize_error, stream_tokenizer_form, StoreDocumentJob,
    StoreStep, CHUNK_OVERLAP, CHUNK_SIZE, SEARCH_LIMIT,
};
use architecture_quantumforge_software::infrastructure::httpserver::{
    ask_context, openapi_config_path, swagger_url_path, AskSimpleForm, AskSimpleQuery,
    CreateDocumentForm, PromptKindForm, SwaggerExample, API_VERSION,
};
use architecture_quantumforge_software::infrastructure::openai::{
    chat_request, chunk_is_complete, completion_from_reply, extract_chunk_response, ChatReply,
    ChatRole, ChunkReply, DeltaMessage, ReplyMessage,
};
use architecture_quantumforge_software::infrastructure::qdrant::{PointId, ScoredPointData};
use architecture_quantumforge_software::infrastructure::sentransformers::{
    embeddings_url, tokenized_content, BgeConfig, Request,
};
use architecture_quantumforge_software::text::{decimal_string, trim_string};

fn result(title: &str, payload: &str) -> SearchResult {
    SearchResult {
        id: "id".to_string(),
        score: 0,
        title: title.to_string(),
        payload: payload.to_string(),
    }
}

fn question(query: &str, kind: PromptKind) -> CompletionContext {
    CompletionContext::new(query.to_string(), None, None, kind)
}

#[test]
fn decimal_string_renders_digits() {
    assert_eq!(decimal_string(0), "0");
    assert_eq!(decimal_string(7), "7");
    assert_eq!(decimal_string(305), "305");
    assert_eq!(decimal_string(u64::MAX), "18446744073709551615");
}

#[test]
fn trim_string_removes_unicode_white_space() {
    assert_eq!(trim_string("  hi there \n"), "hi there");
    assert_eq!(trim_string("\u{3000}x y\u{a0}\t"), "x y");
    assert_eq!(trim_string("   "), "");
    assert_eq!(trim_string(""), "");
    assert_eq!(trim_string("a"), "a");
}

#[test]
fn get_prompt_gives_fixed_and_custom_prompts() {
    assert_eq!(PromptKind::Simple.get_prompt(), SYSTEM_SIMPLE_PROMPT);
    assert_eq!(PromptKind::FewShot.get_prompt(), SYSTEM_PROMPT_FEW_SHOT);
    assert_eq!(PromptKind::ChainOfThought.get_prompt(), SYSTEM_PROMPT_CHAIN_OF_THOUGHT);
    assert_eq!(PromptKind::Custom("be brief".to_string()).get_prompt(), "be brief");
    assert!(matches!(PromptKind::default(), PromptKind::Simple));
}

#[test]
fn api_errors_map_to_assistant_errors() {
    let e = AssistantError::from_api_error(LlmApiError::UnknownError(418, "teapot".to_string()));
    assert!(matches!(&e, AssistantError::UndeclaredError(m) if m == "unknown response 418 code error: teapot"));
    assert_eq!(
        e.to_string(),
        "returned undeclared error from opensearch: unknown response 418 code error: teapot"
    );
    let e = AssistantError::from_api_error(LlmApiError::AuthenticationError("key".to_string()));
    assert!(matches!(&e, AssistantError::AuthenticationFailed(m) if m == "auth error: key"));
    let e = AssistantError::from_api_error(LlmApiError::PermissionError("no".to_string()));
    assert!(matches!(&e, AssistantError::AuthenticationFailed(m) if m == "permissions error: no"));
    let e = AssistantError::from_api_error(LlmApiError::InvalidRequestError("x".to_string()));
    assert!(matches!(&e, AssistantError::ValidationError(m) if m == "validation error: x"));
    let e = AssistantError::from_api_error(LlmApiError::ParseError("p".to_string()));
    assert!(matches!(&e, AssistantError::ValidationError(m) if m == "validation error: p"));
    let e = AssistantError::from_api_error(LlmApiError::FileError("f".to_string()));
    assert!(matches!(&e, AssistantError::ValidationError(m) if m == "validation error: f"));
    let e = AssistantError::from_api_error(LlmApiError::RateLimitError("slow".to_string()));
    assert!(matches!(&e, AssistantError::TooManyRequests(m) if m == "rate limiter warning: slow"));
    for api in [
        LlmApiError::BadRequestError("m".to_string()),
        LlmApiError::ServerError("m".to_string()),
        LlmApiError::StreamError("m".to_string()),
        LlmApiError::NotFoundError("m".to_string()),
        LlmApiError::GoneError("m".to_string()),
        LlmApiError::WebSocketError("m".to_string()),
    ] {
        let e = AssistantError::from_api_error(api);
        assert!(matches!(&e, AssistantError::StreamError(m) if m == "stream error: m"));
    }
}

#[test]
fn assistant_error_descriptions() {
    let cases = [
        (AssistantError::AuthenticationFailed("d".to_string()), "authentication failed: d"),
        (AssistantError::ConnectionLost("d".to_string()), "connection to llm has been lost: d"),
        (
            AssistantError::IncorrectResponseType("d".to_string()),
            "returned incorrect chat message from llm: d",
        ),
        (AssistantError::EmptyResponseContent("d".to_string()), "returned empty response from llm: d"),
        (AssistantError::TooManyRequests("d".to_string()), "too many requests to llm: d"),
        (AssistantError::ValidationError("d".to_string()), "validation error: d"),
        (AssistantError::StreamError("d".to_string()), "streaming error: d"),
    ];
    for (e, text) in cases {
        assert_eq!(e.to_string(), text);
        assert_eq!(e.detail_text(), "d");
    }
}

#[test]
fn server_errors_answer_with_status_and_text() {
    let e = ServerError::from(AssistantError::ValidationError("bad query".to_string()));
    assert_eq!(e.status_code(), (400, "bad query".to_string()));
    let e = ServerError::from(AssistantError::StreamError("lost".to_string()));
    assert_eq!(e.status_code(), (500, "lost".to_string()));
    assert_eq!(e.to_string(), "internal service error: lost");
    let e = ServerError::from(StorageError::InternalError("disk".to_string()));
    assert_eq!(e.status_code(), (500, "disk".to_string()));
    assert_eq!(ServerError::NotFound("n".to_string()).status_code(), (404, "n".to_string()));
    assert_eq!(ServerError::Conflict("c".to_string()).status_code(), (409, "c".to_string()));
    assert_eq!(ServerError::ServerUnavailable.status_code(), (503, "server unavailable".to_string()));
    assert_eq!(ServerError::Conflict("c".to_string()).to_string(), "resource data conflict: c");
    assert_eq!(ServerError::NotFound("n".to_string()).to_string(), "not found error: n");
    assert_eq!(ServerError::ValidationError("v".to_string()).to_string(), "not valid input data: v");
    assert_eq!(ServerError::ServerUnavailable.to_string(), "server unavailable");
}

#[test]
fn success_answers() {
    let s = Success::new(200, "fcdc3f4d");
    assert_eq!(s.status(), 200);
    assert_eq!(s.message(), "fcdc3f4d");
    let d = Success::default();
    assert_eq!(d.status(), 200);
    assert_eq!(d.message(), "Ok");
    let e = <Success as SwaggerExample>::example(Some("ignored"));
    assert_eq!(e.message(), "Ok");
}

#[test]
fn server_error_examples() {
    assert!(matches!(
        <ServerError as SwaggerExample>::example(None),
        ServerError::ServerUnavailable
    ));
    assert!(matches!(
        <ServerError as SwaggerExample>::example(Some("assistant error")),
        ServerError::InternalError(m) if m == "assistant error"
    ));
}

#[test]
fn other_error_descriptions() {
    assert_eq!(
        StorageError::InternalError("gone".to_string()).to_string(),
        "storage internal error: gone"
    );
    assert_eq!(
        TokenizeError::EmptyResponse.to_string(),
        "returned empty response from embeddings service"
    );
    assert_eq!(
        TokenizeError::ServiceError("503".to_string()).to_string(),
        "embeddings service error: 503"
    );
    assert_eq!(LlmApiError::UnknownError(500, "boom".to_string()).to_string(), "500: boom");
    assert_eq!(LlmApiError::GoneError("old".to_string()).to_string(), "old");
}

#[test]
fn documents_context_cites_each_document() {
    let results = vec![result("t1", "  p1 \n"), result("t2", "p2")];
    assert_eq!(documents_context(&results), "[0] t1 - p1 \n[1] t2 - p2 ");
    assert_eq!(documents_context(&vec![]), "");
}

#[test]
fn grounded_context_keeps_kind_and_drops_user() {
    let file = CompletionFile::new("a.txt".to_string(), "text/plain".to_string(), vec![1, 2]);
    let ctx = CompletionContext::new(
        "what is rag?".to_string(),
        Some("alice".to_string()),
        Some(file),
        PromptKind::FewShot,
    );
    let results = vec![result("doc", "retrieval augmented generation")];
    let g = grounded_context(&ctx, &results);
    assert_eq!(
        g.query(),
        "### Documents: [0] doc - retrieval augmented generation \n\nQuestion: what is rag?"
    );
    assert!(g.user().is_none());
    assert!(g.attached_ctx().is_none());
    assert!(matches!(g.prompt_kind(), PromptKind::FewShot));
    let g = grounded_context(&question("q", PromptKind::Simple), &vec![]);
    assert_eq!(g.query(), "### Documents: \n\nQuestion: q");
}

#[test]
fn stream_steps() {
    let ctx = question("hello", PromptKind::Simple);
    let form = stream_tokenizer_form(&ctx, "model-x".to_string());
    assert_eq!(form.input(), "hello");
    assert_eq!(form.model(), "model-x");
    let tokens = TokenizedContent::new(
        "m".to_string(),
        vec![TokensData::new(vec![1, 2, 3]), TokensData::new(vec![9])],
    );
    let params = stream_search_params("docs".to_string(), &tokens);
    assert_eq!(params.collection, "docs");
    assert_eq!(params.vector, vec![1, 2, 3]);
    assert_eq!(params.limit, SEARCH_LIMIT);
    assert_eq!(SEARCH_LIMIT, 2);
    let empty = TokenizedContent::new("m".to_string(), vec![]);
    assert!(stream_search_params("docs".to_string(), &empty).vector.is_empty());
    assert!(matches!(
        stream_tokenize_error(&TokenizeError::EmptyResponse),
        AssistantError::StreamError(m) if m == "returned empty response from embeddings service"
    ));
    assert!(matches!(
        stream_search_error(&StorageError::InternalError("down".to_string())),
        AssistantError::StreamError(m) if m == "failed to search test tokens: storage internal error: down"
    ));
}

fn document(content: &str) -> CreateDocument {
    CreateDocument {
        doc_id: "doc-1".to_string(),
        title: "ignored title".to_string(),
        file_path: "kb/guide.md".to_string(),
        content: content.to_string(),
        embeddings: vec![],
    }
}

#[test]
fn store_job_embeds_and_stores_each_chunk() {
    assert_eq!(CHUNK_SIZE, 600);
    assert_eq!(CHUNK_OVERLAP, 60);
    let text = format!("{}\n\n{}", "a".repeat(400), "b".repeat(400));
    let doc = document(&text);
    let mut job = StoreDocumentJob::new(&doc, &"m".to_string());
    let mut stored = Vec::new();
    loop {
        match job.next_step() {
            StoreStep::Tokenize(form) => {
                assert_eq!(form.model(), "m");
                let tokens =
                    TokenizedContent::new("m".to_string(), vec![TokensData::new(vec![stored.len() as u32])]);
                stored.push(job.chunk_document(&tokens));
            }
            StoreStep::Finished(id) => {
                assert_eq!(id, "doc-1");
                break;
            }
        }
    }
    assert_eq!(stored.len(), 2);
    assert_eq!(stored[0].content, "a".repeat(400));
    assert_eq!(stored[1].content, "b".repeat(400));
    for (i, d) in stored.iter().enumerate() {
        assert_eq!(d.doc_id, "doc-1");
        assert_eq!(d.title, "kb/guide.md");
        assert_eq!(d.file_path, "kb/guide.md");
        assert_eq!(d.embeddings, vec![i as u32]);
    }
}

#[test]
fn store_job_keeps_short_document_whole() {
    let doc = document("first paragraph\n\nsecond paragraph");
    let job = StoreDocumentJob::new(&doc, &"m".to_string());
    match job.next_step() {
        StoreStep::Tokenize(form) => assert_eq!(form.input(), "first paragraph\n\nsecond paragraph"),
        StoreStep::Finished(_) => panic!("the document has a chunk"),
    }
    let empty = StoreDocumentJob::new(&document(""), &"m".to_string());
    assert!(matches!(empty.next_step(), StoreStep::Finished(id) if id == "doc-1"));
    assert!(matches!(
        storage_error_of_tokenize(&TokenizeError::ServiceError("x".to_string())),
        StorageError::InternalError(m) if m == "embeddings service error: x"
    ));
}

#[test]
fn chat_request_frames_question() {
    let ctx = question("what?", PromptKind::Custom("sys".to_string()));
    let r = chat_request(&ctx, &"gpt".to_string(), true);
    assert_eq!(r.user, "guest");
    assert_eq!(r.model, "gpt");
    assert!(r.stream);
    assert_eq!(r.messages.len(), 2);
    assert_eq!(r.messages[0].role, ChatRole::System);
    assert_eq!(r.messages[0].name, "system");
    assert_eq!(r.messages[0].content, "sys");
    assert_eq!(r.messages[1].role, ChatRole::User);
    assert_eq!(r.messages[1].name, "user");
    assert_eq!(r.messages[1].content, "what?");
    let ctx = CompletionContext::new("q".to_string(), Some("bob".to_string()), None, PromptKind::Simple);
    let r = chat_request(&ctx, &"gpt".to_string(), false);
    assert_eq!(r.user, "bob");
    assert!(!r.stream);
    assert_eq!(r.messages[0].content, SYSTEM_SIMPLE_PROMPT);
}

#[test]
fn whole_reply_becomes_answer() {
    let reply = ChatReply {
        object: "chat.completion".to_string(),
        model: "gpt".to_string(),
        created: 17,
        first_message: Some(ReplyMessage::Assistant {
            content: Some("hello".to_string()),
            name: Some("bot".to_string()),
        }),
    };
    let answer = completion_from_reply(reply).unwrap();
    assert_eq!(answer.content(), "hello");
    assert_eq!(answer.object(), "chat.completion");
    assert_eq!(answer.model(), "gpt");
    assert_eq!(answer.created(), 17);
    assert_eq!(answer.name().as_deref(), Some("bot"));
    assert!(answer.refusal().is_none());
    assert!(answer.tool_calls().is_none());
    let empty = ChatReply {
        object: "o".to_string(),
        model: "m".to_string(),
        created: 0,
        first_message: None,
    };
    assert!(matches!(completion_from_reply(empty), Err(AssistantError::StreamError(m)) if m == "empty response"));
    let other = ChatReply {
        object: "o".to_string(),
        model: "m".to_string(),
        created: 0,
        first_message: Some(ReplyMessage::Other),
    };
    assert!(matches!(completion_from_reply(other), Err(AssistantError::StreamError(m)) if m == "empty response"));
}

#[test]
fn streamed_chunks_become_answers() {
    let err: Result<ChunkReply, LlmApiError> = Err(LlmApiError::UnknownError(500, "boom".to_string()));
    assert!(chunk_is_complete(&err));
    assert!(matches!(
        extract_chunk_response(err),
        Err(AssistantError::IncorrectResponseType(m)) if m == "api error: 500: boom"
    ));
    let chunk = ChunkReply {
        object: "chat.completion.chunk".to_string(),
        model: "gpt".to_string(),
        created: 3,
        first_delta: Some(DeltaMessage::Assistant {
            content: None,
            reasoning_content: Some("why".to_string()),
            refusal: None,
            name: None,
        }),
    };
    let answer = extract_chunk_response(Ok(chunk)).unwrap();
    assert_eq!(answer.content(), "");
    assert_eq!(answer.reasoning_content().as_deref(), Some("why"));
    assert!(answer.tool_call_id().is_none());
    let chunk = ChunkReply {
        object: "c".to_string(),
        model: "gpt".to_string(),
        created: 3,
        first_delta: Some(DeltaMessage::Untagged {
            content: Some("tok".to_string()),
            reasoning_content: None,
            refusal: None,
            name: None,
            tool_call_id: Some("call-1".to_string()),
        }),
    };
    let answer = extract_chunk_response(Ok(chunk)).unwrap();
    assert_eq!(answer.content(), "tok");
    assert_eq!(answer.tool_call_id().as_deref(), Some("call-1"));
    let incomplete: Result<ChunkReply, LlmApiError> = Ok(ChunkReply {
        object: "c".to_string(),
        model: "gpt".to_string(),
        created: 3,
        first_delta: None,
    });
    assert!(!chunk_is_complete(&incomplete));
    let tool: Result<ChunkReply, LlmApiError> = Ok(ChunkReply {
        object: "c".to_string(),
        model: "gpt".to_string(),
        created: 3,
        first_delta: Some(DeltaMessage::Tool { content: "x".to_string(), tool_call_id: "t".to_string() }),
    });
    assert!(!chunk_is_complete(&tool));
}

#[test]
fn embeddings_service_requests_and_answers() {
    let config = BgeConfig::new("http://localhost:8080".to_string());
    assert_eq!(
        embeddings_url(&config),
        "http://localhost:8080/pipeline/feature-extraction/sentence-transformers/all-MiniLM-L6-v2"
    );
    let form = TokenizerInputForm::new("text".to_string(), "mini".to_string());
    assert_eq!(Request::for_form(&form).inputs(), &vec!["text".to_string()]);
    let content = tokenized_content(&form, &vec![vec![vec![vec![5, 6], vec![7]]]]).unwrap();
    assert_eq!(content.model(), "mini");
    assert_eq!(content.data().len(), 1);
    assert_eq!(content.data()[0].embedding(), &vec![5, 6]);
    assert!(matches!(tokenized_content(&form, &vec![]), Err(TokenizeError::EmptyResponse)));
    assert!(matches!(tokenized_content(&form, &vec![vec![]]), Err(TokenizeError::EmptyResponse)));
    assert!(matches!(
        tokenized_content(&form, &vec![vec![vec![]]]),
        Err(TokenizeError::EmptyResponse)
    ));
}

#[test]
fn search_hits_become_results() {
    let hit = ScoredPointData {
        id: Some(PointId::Num(42)),
        score: 0x3f80_0000,
        content: Some("body".to_string()),
        title: None,
    };
    let r = SearchResult::from_point(hit);
    assert_eq!(r.id, "42");
    assert_eq!(r.score, 0x3f80_0000);
    assert_eq!(r.title, "");
    assert_eq!(r.payload, "body");
    let hit = ScoredPointData {
        id: Some(PointId::Uuid("u-1".to_string())),
        score: 0,
        content: None,
        title: Some("t".to_string()),
    };
    let r = SearchResult::from_point(hit);
    assert_eq!(r.id, "u-1");
    assert_eq!(r.title, "t");
    assert_eq!(r.payload, "");
    let r = SearchResult::from_point(ScoredPointData { id: None, score: 0, content: None, title: None });
    assert_eq!(r.id, "");
}

#[test]
fn swagger_paths() {
    assert_eq!(API_VERSION, "v1");
    assert_eq!(swagger_url_path(API_VERSION), "/api/v1/swagger");
    assert_eq!(openapi_config_path(API_VERSION), "/api-docs/openapi-v1.json");
}

#[test]
fn ask_context_takes_query_kind() {
    let form = AskSimpleForm { query: "hi".to_string(), prompt: Some("unused".to_string()) };
    let ctx = ask_context(form, AskSimpleQuery { kind: Some(PromptKindForm::Custom("x".to_string())) });
    assert_eq!(ctx.query(), "hi");
    assert!(ctx.user().is_none());
    assert!(ctx.attached_ctx().is_none());
    assert_eq!(ctx.prompt_kind().get_prompt(), "x");
    let form = AskSimpleForm { query: "hi".to_string(), prompt: None };
    let ctx = ask_context(form, AskSimpleQuery { kind: None });
    assert!(matches!(ctx.prompt_kind(), PromptKind::Simple));
    assert!(matches!(PromptKind::from(PromptKindForm::ChainOfThought), PromptKind::ChainOfThought));
}

#[test]
fn document_form_gets_random_id() {
    let form = CreateDocumentForm::new("t".to_string(), "p".to_string(), "c".to_string());
    let doc = CreateDocument::from_form(form);
    assert_eq!(doc.doc_id.len(), 36);
    assert_eq!(doc.doc_id.chars().nth(14), Some('4'));
    assert_eq!(doc.title, "t");
    assert_eq!(doc.file_path, "p");
    assert_eq!(doc.content, "c");
    assert!(doc.embeddings.is_empty());
    let form = CreateDocumentForm::new("t".to_string(), "p".to_string(), "c".to_string());
    let doc = CreateDocument::from_form_with_id(form, "fixed".to_string());
    assert_eq!(doc.doc_id, "fixed");
}

#[test]
fn api_errors_answer_with_http_status() {
    let cases = [
        (LlmApiError::InvalidRequestError("i".to_string()), "validation error: i"),
        (LlmApiError::ParseError("p".to_string()), "validation error: p"),
        (LlmApiError::FileError("f".to_string()), "validation error: f"),
        (LlmApiError::AuthenticationError("a".to_string()), "auth error: a"),
        (LlmApiError::RateLimitError("r".to_string()), "rate limiter warning: r"),
        (LlmApiError::UnknownError(599, "u".to_string()), "unknown response 599 code error: u"),
        (LlmApiError::GoneError("g".to_string()), "stream error: g"),
    ];
    for (api, body) in cases {
        let answer = ServerError::from(AssistantError::from_api_error(api));
        assert_eq!(answer.error_answer(), (400, body.to_string()));
    }
}

#[test]
fn error_answers_follow_api_documentation() {
    let failed_store = ServerError::from(StorageError::InternalError("disk full".to_string()));
    assert_eq!(failed_store.error_answer(), (400, "disk full".to_string()));
    let failed_ask = ServerError::from(AssistantError::ConnectionLost("lost".to_string()));
    assert_eq!(failed_ask.error_answer(), (400, "lost".to_string()));
    assert_eq!(ServerError::NotFound("n".to_string()).error_answer(), (400, "n".to_string()));
    assert_eq!(ServerError::Conflict("c".to_string()).error_answer(), (400, "c".to_string()));
    assert_eq!(
        ServerError::ServerUnavailable.error_answer(),
        (503, "server unavailable".to_string())
    );
}

#[test]
fn store_job_from_given_chunks() {
    let doc = document("ignored here");
    let chunks = vec!["one".to_string(), "two".to_string(), "three".to_string()];
    let mut job = StoreDocumentJob::from_chunks(&doc, &"m".to_string(), chunks);
    let mut contents = Vec::new();
    while let StoreStep::Tokenize(form) = job.next_step() {
        assert_eq!(form.model(), "m");
        let tokens = TokenizedContent::new("m".to_string(), vec![TokensData::new(vec![1])]);
        let d = job.chunk_document(&tokens);
        assert_eq!(d.content, form.input().clone());
        contents.push(d.content);
    }
    assert_eq!(contents, vec!["one", "two", "three"]);
    assert!(matches!(job.next_step(), StoreStep::Finished(id) if id == "doc-1"));
}

#[test]
fn error_examples_answer_with_status() {
    let unavailable = <ServerError as SwaggerExample>::example(None);
    assert_eq!(unavailable.error_answer(), (503, "server unavailable".to_string()));
    let internal = <ServerError as SwaggerExample>::example(Some("storage error"));
    assert_eq!(internal.error_answer(), (400, "storage error".to_string()));
}

#[test]
fn whole_and_streamed_requests_send_same_messages() {
    let ctx = CompletionContext::new(
        "q".to_string(),
        Some("carol".to_string()),
        None,
        PromptKind::ChainOfThought,
    );
    let whole = chat_request(&ctx, &"gpt".to_string(), false);
    let streamed = chat_request(&ctx, &"gpt".to_string(), true);
    assert_eq!(whole.user, streamed.user);
    assert_eq!(whole.model, streamed.model);
    assert_eq!(whole.messages.len(), streamed.messages.len());
    for (a, b) in whole.messages.iter().zip(streamed.messages.iter()) {
        assert_eq!(a.role, b.role);
        assert_eq!(a.name, b.name);
        assert_eq!(a.content, b.content);
    }
    assert!(!whole.stream);
    assert!(streamed.stream);
}
