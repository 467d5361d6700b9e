# architecture_quantumforge_software

A retrieval-augmented assistant. A question is embedded, the nearest
documents of a vector store are found, and the question, grounded in those
documents, is answered by a language model; documents are split into
chunks, embedded and stored.

Layout:

- `src/` — the verified library (Verus):
  - `application/structures` — questions, answers, prompts, documents,
    embedding forms, each with a view that the contracts speak of;
  - `application/services` — the error types and how they map onto each
    other and onto HTTP answers;
  - `application/usecase` — the decisions of the use case: the grounded
    question of a streamed ask, and the chunk-by-chunk storing of a
    document (`StoreDocumentJob`);
  - `infrastructure` — configuration sections, chat requests and how
    replies and streamed chunks become answers, embeddings requests and
    answers, search hits, HTTP forms and API documentation paths;
  - `text` — decimal rendering, Unicode trimming, joining, document ids.
- `app/` — the asynchronous clients (language model, vector store,
  embeddings service), the use case that awaits them, the HTTP server, the
  configuration loader and the two programs (`app/main.rs` serves the API,
  or rebuilds the index when given `create_and_store_index`).
- `tests/` — tests of the library on concrete values.

Embedding components and similarity scores are `f32`; the library carries
them as the `u32` of their bit patterns, and `app/` converts at its edges.
