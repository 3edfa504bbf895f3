//! Anthropic Messages API wire types.
//!
//! These are the shapes the router reads and writes on the Anthropic side.
//! Encoding and decoding them as JSON is done outside the library, on copies
//! of these types that carry the serialisation attributes.

use vstd::prelude::*;

verus! {

#[verifier::external_type_specification]
#[verifier::external_body]
pub struct ExJsonValue(serde_json::Value);

/// `Clone` of `serde_json::Value`: nothing is claimed of the copy.
pub assume_specification[ <serde_json::Value as Clone>::clone ](value: &serde_json::Value) -> serde_json::Value;

// -- Request types --

/// Prompt-caching annotation on a content block
#[derive(Debug, Clone)]
pub struct CacheControl {
    /// Cache type (e.g. "ephemeral")
    pub cache_type: String,
}

/// Anthropic message
#[derive(Debug, Clone)]
pub struct AnthropicMessage {
    /// Role ("user" or "assistant")
    pub role: String,
    /// Content blocks
    pub content: AnthropicContent,
}

/// Anthropic content can be a string or array of content blocks
#[derive(Debug, Clone)]
pub enum AnthropicContent {
    /// Plain text (shorthand)
    Text(String),
    /// Array of content blocks
    Blocks(Vec<AnthropicContentBlock>),
}

/// System prompt shape — string shorthand or array of content blocks
#[derive(Debug, Clone)]
pub enum AnthropicSystemPrompt {
    /// Plain text (shorthand)
    Text(String),
    /// Array of content blocks (typically text with optional cache_control)
    Blocks(Vec<AnthropicContentBlock>),
}

/// Content block in an Anthropic message
#[derive(Debug, Clone)]
pub enum AnthropicContentBlock {
    /// Text content
    Text {
        /// The text string
        text: String,
        /// Optional prompt-caching annotation, kept so that upstream caching
        /// applies to the marked prefix
        cache_control: Option<CacheControl>,
    },
    /// Image content
    Image {
        /// Image source
        source: AnthropicImageSource,
    },
    /// Tool use request from the assistant
    ToolUse {
        /// Tool use identifier
        id: String,
        /// Tool name
        name: String,
        /// Tool input as JSON
        input: serde_json::Value,
    },
    /// Tool result from the user
    ToolResult {
        /// Tool use ID this result responds to
        tool_use_id: String,
        /// Result content
        content: Option<String>,
        /// Whether the tool call errored
        is_error: Option<bool>,
    },
}

/// Anthropic image source
#[derive(Debug, Clone)]
pub struct AnthropicImageSource {
    /// Source type (e.g. "base64", "url")
    pub source_type: String,
    /// Media type (e.g. "image/png")
    pub media_type: Option<String>,
    /// Image data (base64 encoded) or URL
    pub data: String,
}

/// Anthropic tool definition
#[derive(Debug, Clone)]
pub struct AnthropicTool {
    /// Tool name
    pub name: String,
    /// Human-readable description
    pub description: Option<String>,
    /// JSON Schema for input parameters
    pub input_schema: serde_json::Value,
}

/// Anthropic tool choice
#[derive(Debug, Clone)]
pub struct AnthropicToolChoice {
    /// Choice type: "auto", "any", or "tool"
    pub choice_type: String,
    /// Specific tool name (when type is "tool")
    pub name: Option<String>,
}

// -- Response types --

/// Anthropic messages API response
#[derive(Debug, Clone)]
pub struct AnthropicResponse {
    /// Response identifier
    pub id: String,
    /// Object type (always "message")
    pub response_type: String,
    /// Role (always "assistant")
    pub role: String,
    /// Response content blocks
    pub content: Vec<AnthropicResponseBlock>,
    /// Model used
    pub model: String,
    /// Stop reason
    pub stop_reason: Option<String>,
    /// Stop sequence that triggered the stop
    pub stop_sequence: Option<String>,
    /// Token usage
    pub usage: AnthropicUsage,
}

/// Content block in an Anthropic response
#[derive(Debug, Clone)]
pub enum AnthropicResponseBlock {
    /// Text response
    Text {
        /// The text string
        text: String,
    },
    /// Tool use request
    ToolUse {
        /// Tool use identifier
        id: String,
        /// Tool name
        name: String,
        /// Tool input as JSON
        input: serde_json::Value,
    },
}

/// Anthropic token usage
#[derive(Debug, Clone)]
pub struct AnthropicUsage {
    /// Input tokens
    pub input_tokens: u32,
    /// Output tokens
    pub output_tokens: u32,
}

// -- Streaming types --

/// Anthropic SSE event types
#[derive(Debug, Clone)]
pub enum AnthropicStreamEvent {
    /// Stream started
    MessageStart {
        /// Partial message with metadata
        message: AnthropicStreamMessage,
    },
    /// New content block started
    ContentBlockStart {
        /// Block index
        index: u32,
        /// Initial block content
        content_block: AnthropicStreamContentBlock,
    },
    /// Incremental content within a block
    ContentBlockDelta {
        /// Block index
        index: u32,
        /// Delta content
        delta: AnthropicStreamDelta,
    },
    /// Content block finished
    ContentBlockStop {
        /// Block index
        index: u32,
    },
    /// Message metadata delta (stop reason, usage)
    MessageDelta {
        /// Delta with stop reason
        delta: AnthropicMessageDelta,
        /// Updated usage
        usage: Option<AnthropicUsage>,
    },
    /// Stream completed
    MessageStop,
    /// Ping event for keep-alive
    Ping,
}

/// Partial message in a `message_start` event
#[derive(Debug, Clone)]
pub struct AnthropicStreamMessage {
    /// Response identifier
    pub id: String,
    /// Object type
    pub message_type: String,
    /// Role
    pub role: String,
    /// Model
    pub model: String,
    /// Initial usage
    pub usage: Option<AnthropicUsage>,
}

/// Content block in a `content_block_start` event
#[derive(Debug, Clone)]
pub enum AnthropicStreamContentBlock {
    /// Text block
    Text {
        /// Initial text (usually empty)
        text: String,
    },
    /// Tool use block
    ToolUse {
        /// Tool use ID
        id: String,
        /// Tool name
        name: String,
        /// Initial input (usually empty object)
        input: serde_json::Value,
    },
}

/// Delta content in a `content_block_delta` event
#[derive(Debug, Clone)]
pub enum AnthropicStreamDelta {
    /// Incremental text
    TextDelta {
        /// Text fragment
        text: String,
    },
    /// Incremental tool input JSON
    InputJsonDelta {
        /// JSON fragment
        partial_json: String,
    },
}

/// Delta in a `message_delta` event
#[derive(Debug, Clone)]
pub struct AnthropicMessageDelta {
    /// Stop reason
    pub stop_reason: Option<String>,
    /// Stop sequence
    pub stop_sequence: Option<String>,
}

// -- Error response --

/// Anthropic error response body
#[derive(Debug, Clone)]
pub struct AnthropicErrorResponse {
    /// Error type
    pub error_type: String,
    /// Error details
    pub error: AnthropicErrorDetail,
}

/// Anthropic error detail
#[derive(Debug, Clone)]
pub struct AnthropicErrorDetail {
    /// Error type
    pub error_type: String,
    /// Error message
    pub message: String,
}

} // verus!
