//! The content-shape filters: pass only messages of one content variant.

use vstd::prelude::*;

use crate::data::DataHub;
use crate::filter::FilterResult;
use crate::helpers::str_eq;
use crate::message::MessageContent;

verus! {

/// Which content variant a message must have to pass.
#[derive(Clone, Copy)]
pub enum MessageType {
    Text,
    Video,
    Photo,
    Animation,
    Document,
    AnyFile,
}

/// Whether a content variant passes a shape check. `Animation` also
/// accepts a document whose declared media type is the animated-image
/// format; `AnyFile` accepts any media variant.
pub open spec fn type_passes(t: MessageType, c: MessageContent) -> bool {
    match t {
        MessageType::Text => c is Text,
        MessageType::Video => c is Video,
        MessageType::Photo => c is Photo,
        MessageType::Document => c is Document,
        MessageType::Animation => c is Animation || (match c {
            MessageContent::Document { mime_type, .. } => mime_type@ == "image/gif"@,
            _ => false,
        }),
        MessageType::AnyFile => c is Video || c is Photo || c is Animation || c is Document,
    }
}

impl MessageType {
    /// Pass exactly the messages whose content has the required shape.
    pub fn filter(&self, data: &DataHub) -> (r: FilterResult)
        ensures
            r is Ok <==> type_passes(*self, data.input.content),
    {
        let content = &data.input.content;
        let passes = match self {
            MessageType::Text => matches!(content, MessageContent::Text { .. }),
            MessageType::Video => matches!(content, MessageContent::Video { .. }),
            MessageType::Photo => matches!(content, MessageContent::Photo { .. }),
            MessageType::Document => matches!(content, MessageContent::Document { .. }),
            MessageType::Animation => match content {
                MessageContent::Animation { .. } => true,
                MessageContent::Document { mime_type, .. } => str_eq(
                    mime_type.as_str(),
                    "image/gif",
                ),
                _ => false,
            },
            MessageType::AnyFile => matches!(
                content,
                MessageContent::Video { .. } | MessageContent::Photo { .. }
                    | MessageContent::Animation { .. } | MessageContent::Document { .. }
            ),
        };
        if passes {
            Ok(())
        } else {
            Err(())
        }
    }
}

} // verus!
