//! Replies of a completion service that may come without content.

use crate::nous_structs::{classified, classify_content, ChatRole, NousResponseMessage, Usage};
use vstd::prelude::*;

verus! {

/// One reply of the completion service, its content classified.
pub type LlamaResponseMessage = NousResponseMessage;

/// The reply with the content `data`, where there is content: `None` exactly
/// when `data` is `None`. The content is classified as every reply's is.
pub fn output_llama_response(data: Option<&str>, role: ChatRole, usage: Usage) -> (r: Option<
    LlamaResponseMessage,
>)
    ensures
        match (data, r) {
            (Some(text), Some(reply)) => reply.content@ == classified(text@) && reply.role == role
                && reply.usage == usage,
            (None, None) => true,
            _ => false,
        },
{
    match data {
        Some(text) => Some(NousResponseMessage { content: classify_content(text), role, usage }),
        None => None,
    }
}

} // verus!
