//! What the recognition service answered for one image.

use vstd::prelude::*;

verus! {

/// A definite answer of the recognition service.
#[derive(Debug, Clone, PartialEq, Eq)]
pub enum ChatResponse {
    /// The recognized text.
    Content(String),
    /// The service declined, with its reason.
    Refusal(String),
}

/// The message of the first choice that the service returned.
#[derive(Debug, Clone, PartialEq, Eq)]
pub struct ChoiceMessage {
    pub refusal: Option<String>,
    pub content: Option<String>,
}

/// The answer carried by the first choice: a refusal takes precedence over
/// content; no choice, or a choice with neither, is no answer.
pub fn interpret_first_choice(first: Option<ChoiceMessage>) -> (r: Option<ChatResponse>)
    ensures
        match first {
            None => r is None,
            Some(m) => match (m.refusal, m.content) {
                (Some(reason), _) => r == Some(ChatResponse::Refusal(reason)),
                (None, Some(text)) => r == Some(ChatResponse::Content(text)),
                (None, None) => r is None,
            },
        },
{
    match first {
        None => None,
        Some(m) => match m.refusal {
            Some(reason) => Some(ChatResponse::Refusal(reason)),
            None => match m.content {
                Some(text) => Some(ChatResponse::Content(text)),
                None => None,
            },
        },
    }
}

} // verus!
