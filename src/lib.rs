//! Typed client core for a unified chat-completion API that fronts several
//! model providers: request records, credential injection into request
//! headers, endpoint addressing and the classification of HTTP outcomes into
//! a typed error taxonomy.
//!
//! The HTTP transport and the JSON codecs of the records are handed in by the
//! caller; this crate decides what is sent and what a response means.

mod auth;
mod client;
mod error;
mod response;
mod text;
mod types;

pub use auth::{
    after_setting, bearer, header_char_ok, header_count, header_entries, header_name_ok,
    header_value_ok, lemma_after_setting_concat, lemma_after_setting_push, values_under,
    lemma_api_key_headers, lemma_header_value_concat, ApiKeyAuth, AuthStrategy, HEADER_ROOM,
};
pub use client::{
    body_headers, default_base_url, find_model, missing_model_message, none_before, Client,
    ClientBuilder,
};
pub use error::OpenRouterError;
pub use response::{
    classify_error, decoded_success, error_for_response, is_success, is_success_status,
    lemma_known_status_kinds, lemma_rate_limit_delay, lemma_undecodable_error_body,
    lemma_unmapped_status_code, response_error, retry_after_of, retry_after_seconds,
    DEFAULT_RETRY_AFTER,
};
pub use text::{all_digits, decimal_u64, digits_value};
pub use types::{
    Choice, CreateChatCompletionResponse, ErrorDetail, ErrorResponse, FunctionCall,
    FunctionDefinition, Message, Model, ModelArchitecture, ModelList, ModelPricing,
    ProviderPreferences, Role, Tool, ToolCall, TopProvider, Usage,
};
