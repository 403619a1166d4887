//! Plain data exchanged with the drawing assistant service.
use vstd::prelude::*;

verus! {

/// One message of a chat-completion request.
#[derive(Debug)]
pub struct ClaudeMessage {
    pub role: String,
    pub content: String,
}

/// A chat-completion request.
#[derive(Debug)]
pub struct ClaudeRequest {
    pub model: String,
    pub max_tokens: u32,
    pub messages: Vec<ClaudeMessage>,
    pub system: Option<String>,
}

/// The title block of a generated drawing.
#[derive(Debug, Clone)]
pub struct TitleBlock {
    pub part_name: String,
    pub part_number: String,
    pub material: String,
    pub scale: String,
    pub drawn_by: String,
    pub date: String,
}

} // verus!
