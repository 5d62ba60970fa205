//! Request and response records of the chat-completion API.

use vstd::prelude::*;

verus! {

/// The author of a message.
#[derive(Debug, Clone, Copy, PartialEq, Eq, Structural)]
pub enum Role {
    System,
    User,
    Assistant,
    Tool,
}

/// A message in the conversation.
#[derive(Debug, Clone)]
pub struct Message {
    pub role: Role,
    pub content: Option<String>,
    /// Tool calls made by the assistant.
    pub tool_calls: Option<Vec<ToolCall>>,
    /// The call that a tool message answers.
    pub tool_call_id: Option<String>,
}

impl Message {
    /// A system message holding `content`.
    pub fn system(content: &str) -> (r: Message)
        ensures
            r.role == Role::System,
            r.content matches Some(c) && c@ == content@,
            r.tool_calls is None,
            r.tool_call_id is None,
    {
        Message { role: Role::System, content: Some(content.to_owned()), tool_calls: None, tool_call_id: None }
    }

    /// A user message holding `content`.
    pub fn user(content: &str) -> (r: Message)
        ensures
            r.role == Role::User,
            r.content matches Some(c) && c@ == content@,
            r.tool_calls is None,
            r.tool_call_id is None,
    {
        Message { role: Role::User, content: Some(content.to_owned()), tool_calls: None, tool_call_id: None }
    }

    /// An assistant message holding `content`.
    pub fn assistant(content: &str) -> (r: Message)
        ensures
            r.role == Role::Assistant,
            r.content matches Some(c) && c@ == content@,
            r.tool_calls is None,
            r.tool_call_id is None,
    {
        Message { role: Role::Assistant, content: Some(content.to_owned()), tool_calls: None, tool_call_id: None }
    }

    /// An assistant message that carries tool calls and no text.
    pub fn assistant_with_tool_calls(tool_calls: Vec<ToolCall>) -> (r: Message)
        ensures
            r.role == Role::Assistant,
            r.content is None,
            r.tool_calls == Some(tool_calls),
            r.tool_call_id is None,
    {
        Message { role: Role::Assistant, content: None, tool_calls: Some(tool_calls), tool_call_id: None }
    }

    /// The result of the tool call `tool_call_id`.
    pub fn tool(tool_call_id: &str, content: &str) -> (r: Message)
        ensures
            r.role == Role::Tool,
            r.content matches Some(c) && c@ == content@,
            r.tool_calls is None,
            r.tool_call_id matches Some(i) && i@ == tool_call_id@,
    {
        Message {
            role: Role::Tool,
            content: Some(content.to_owned()),
            tool_calls: None,
            tool_call_id: Some(tool_call_id.to_owned()),
        }
    }
}

/// A tool call made by the assistant.
#[derive(Debug, Clone)]
pub struct ToolCall {
    pub id: String,
    /// Always "function".
    pub tool_type: String,
    pub function: FunctionCall,
}

impl ToolCall {
    /// A call of the function `name` with JSON-encoded `arguments`.
    pub fn new(id: &str, name: &str, arguments: &str) -> (r: ToolCall)
        ensures
            r.id@ == id@,
            r.tool_type@ == "function"@,
            r.function.name@ == name@,
            r.function.arguments@ == arguments@,
    {
        ToolCall {
            id: id.to_owned(),
            tool_type: "function".to_owned(),
            function: FunctionCall { name: name.to_owned(), arguments: arguments.to_owned() },
        }
    }
}

/// The function named in a tool call.
#[derive(Debug, Clone)]
pub struct FunctionCall {
    pub name: String,
    /// JSON-encoded arguments.
    pub arguments: String,
}

/// A JSON document, held as the outside codec's own value.
#[verifier::external_type_specification]
#[verifier::external_body]
pub struct ExJsonValue(serde_json::Value);

/// Relies on the `Clone` impl of `serde_json::Value`, which copies the
/// document; nothing is claimed of the copy.
pub assume_specification[ <serde_json::Value as Clone>::clone ](v: &serde_json::Value) -> serde_json::Value;

/// A tool that the model may call.
#[derive(Debug, Clone)]
pub struct Tool {
    /// Always "function".
    pub tool_type: String,
    pub function: FunctionDefinition,
}

impl Tool {
    /// A function tool named `name`, whose arguments follow the JSON schema
    /// `parameters`.
    pub fn function(name: &str, description: &str, parameters: serde_json::Value) -> (r: Tool)
        ensures
            r.tool_type@ == "function"@,
            r.function.name@ == name@,
            r.function.description@ == description@,
            r.function.parameters == parameters,
    {
        Tool {
            tool_type: "function".to_owned(),
            function: FunctionDefinition {
                name: name.to_owned(),
                description: description.to_owned(),
                parameters,
            },
        }
    }
}

/// The definition of a callable function.
#[derive(Debug, Clone)]
pub struct FunctionDefinition {
    pub name: String,
    pub description: String,
    /// JSON schema of the parameters.
    pub parameters: serde_json::Value,
}

/// Provider routing preferences.
#[derive(Debug, Clone, Default)]
pub struct ProviderPreferences {
    pub allow_fallbacks: Option<bool>,
    pub require_parameters: Option<bool>,
    pub data_collection: Option<String>,
    pub order: Option<Vec<String>>,
    pub ignore: Option<Vec<String>>,
    /// Accepted quantizations ("int4", "int8", "fp8", ...).
    pub quantizations: Option<Vec<String>>,
}

/// Token usage of a completion.
#[derive(Debug, Clone)]
pub struct Usage {
    pub prompt_tokens: usize,
    pub completion_tokens: usize,
    pub total_tokens: usize,
}

/// One completion choice.
#[derive(Debug, Clone)]
pub struct Choice {
    pub index: usize,
    pub message: Message,
    pub finish_reason: Option<String>,
}

/// The response to a chat-completion request.
#[derive(Debug, Clone)]
pub struct CreateChatCompletionResponse {
    pub id: String,
    pub object: String,
    pub created: u64,
    pub model: String,
    pub choices: Vec<Choice>,
    pub usage: Option<Usage>,
}

impl CreateChatCompletionResponse {
    /// The text of the first choice, if there is a choice and it has text.
    pub fn content(&self) -> (r: Option<&str>)
        ensures
            r is Some <==> (self.choices@.len() > 0 && self.choices@[0].message.content is Some),
            r matches Some(t) ==> t@ == self.choices@[0].message.content->Some_0@,
    {
        if self.choices.len() == 0 {
            return None;
        }
        match &self.choices[0].message.content {
            Some(c) => Some(c.as_str()),
            None => None,
        }
    }

    /// The tool calls of the first choice, if there is a choice that has them.
    pub fn tool_calls(&self) -> (r: Option<&Vec<ToolCall>>)
        ensures
            r is Some <==> (self.choices@.len() > 0 && self.choices@[0].message.tool_calls is Some),
            r matches Some(v) ==> *v == self.choices@[0].message.tool_calls->Some_0,
    {
        if self.choices.len() == 0 {
            return None;
        }
        match &self.choices[0].message.tool_calls {
            Some(v) => Some(v),
            None => None,
        }
    }

    /// Whether the first choice carries tool calls.
    pub fn has_tool_calls(&self) -> (r: bool)
        ensures
            r == (self.choices@.len() > 0 && self.choices@[0].message.tool_calls is Some),
    {
        self.choices.len() > 0 && self.choices[0].message.tool_calls.is_some()
    }
}

/// Prices of a model, as decimal text in USD.
#[derive(Debug, Clone)]
pub struct ModelPricing {
    /// Per prompt token.
    pub prompt: String,
    /// Per completion token.
    pub completion: String,
    pub image: Option<String>,
    pub request: Option<String>,
}

/// A model of the catalog.
#[derive(Debug, Clone)]
pub struct Model {
    /// Identifier, such as "openai/gpt-4o".
    pub id: String,
    /// Display name.
    pub name: String,
    pub description: Option<String>,
    /// Context length in tokens.
    pub context_length: usize,
    pub pricing: ModelPricing,
    pub top_provider: Option<TopProvider>,
    pub architecture: Option<ModelArchitecture>,
}

/// Details of the provider that serves a model best.
#[derive(Debug, Clone)]
pub struct TopProvider {
    pub context_length: Option<usize>,
    pub max_completion_tokens: Option<usize>,
    pub is_moderated: Option<bool>,
}

/// How a model is built.
#[derive(Debug, Clone)]
pub struct ModelArchitecture {
    /// Such as "text->text" or "text+image->text".
    pub modality: Option<String>,
    pub tokenizer: Option<String>,
    pub instruct_type: Option<String>,
}

/// The model catalog, in the order the service lists it.
#[derive(Debug, Clone)]
pub struct ModelList {
    pub data: Vec<Model>,
}

/// The error envelope that the service sends with a failed request.
#[derive(Debug, Clone)]
pub struct ErrorResponse {
    pub error: ErrorDetail,
}

/// The body of the error envelope.
#[derive(Debug, Clone)]
pub struct ErrorDetail {
    pub message: String,
    pub error_type: Option<String>,
    /// The service's own error code.
    pub code: Option<i32>,
}

} // verus!
