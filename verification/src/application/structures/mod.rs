mod assistant;
mod prompt;
mod storage;
mod tokenizer;

pub use assistant::{file_view, CompletionContext, CompletionContextView, CompletionFile, CompletionFileView};
pub use assistant::{CompletionResult, CompletionResultView};
pub use prompt::PromptKind;
pub use prompt::{SYSTEM_PROMPT_CHAIN_OF_THOUGHT, SYSTEM_PROMPT_FEW_SHOT, SYSTEM_SIMPLE_PROMPT};
pub use storage::{CreateDocument, Document, SearchParams, SearchResult};
pub use tokenizer::{TokenizedContent, TokenizedContentView, TokenizerInputForm, TokenizerInputFormView, TokensData};
