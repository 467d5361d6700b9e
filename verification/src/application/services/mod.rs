mod assistant;
mod storage;
mod tokenizer;

pub use assistant::{api_error_outcome, AssistantError, AssistantResult, LlmApiError};
pub use storage::{StorageError, StorageResult};
pub use tokenizer::{TokenizeError, TokenizeResult};
mod server;

pub use server::{server_error_of_assistant, server_error_of_storage, ServerError, ServerResult};
pub use server::{Success, SuccessView, UNAVAILABLE_SERVER};
