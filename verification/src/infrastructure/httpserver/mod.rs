//! The HTTP API: its configuration, routes, request forms and the
//! examples of its documentation.
use vstd::prelude::*;

mod form;
mod swagger;

pub use form::{ask_context, AskSimpleForm, AskSimpleQuery, CreateDocumentForm, CreateDocumentFormView, PromptKindForm};
pub use swagger::{openapi_config_path, swagger_url_path, SwaggerExample};

verus! {

/// The version of the HTTP API.
pub const API_VERSION: &'static str = "v1";

/// Where the OpenAPI description is served.
pub const SWAGGER_CONFIG_FILE: &'static str = "/api-docs/openapi.json";

/// The route that answers a question whole.
pub const ASSISTANT_ASK_URL: &'static str = "/api/v1/assistant/ask";

/// The route that streams the answer to a question.
pub const ASSISTANT_ASK_STREAM_URL: &'static str = "/api/v1/assistant/ask_stream";

/// The route that stores a document.
pub const STORE_DOCUMENT_URL: &'static str = "/api/v1/storage/document";

/// Where the HTTP server listens.
#[derive(Debug)]
pub struct HttpServerConfig {
    address: String,
}

impl View for HttpServerConfig {
    type V = Seq<char>;

    closed spec fn view(&self) -> Seq<char> {
        self.address@
    }
}

impl HttpServerConfig {
    pub fn new(address: String) -> (c: Self)
        ensures
            c@ == address@,
    {
        HttpServerConfig { address }
    }

    pub fn address(&self) -> (r: &String)
        ensures
            r@ == self@,
    {
        &self.address
    }
}

} // verus!
