//! Content inspector: pure lookups over a message's content variant, the
//! outbound-skeleton builder, and the numeric comparison helper.

use vstd::prelude::*;

use crate::message::{
    FileRef, InboundMessage, InputFileRef, InputFileView, MessageContent, OutView, OutboundContent,
};

verus! {

/// The text body of a text message, or the caption of a media message;
/// nothing for other content.
pub open spec fn spec_input_text(c: MessageContent) -> Option<Seq<char>> {
    match c {
        MessageContent::Text { text } => Some(text@),
        MessageContent::Photo { caption, .. } => Some(caption@),
        MessageContent::Animation { caption, .. } => Some(caption@),
        MessageContent::Video { caption, .. } => Some(caption@),
        MessageContent::Document { caption, .. } => Some(caption@),
        MessageContent::Other => None,
    }
}

/// The single transferable file of a media message; for photos the first
/// size variant, and nothing when a photo has no size variants.
pub open spec fn spec_input_file(c: MessageContent) -> Option<FileRef> {
    match c {
        MessageContent::Video { video, .. } => Some(video),
        MessageContent::Photo { first_size, .. } => first_size,
        MessageContent::Animation { animation, .. } => Some(animation),
        MessageContent::Document { document, .. } => Some(document),
        _ => None,
    }
}

/// Playback duration of video or animation content only.
pub open spec fn spec_input_duration(c: MessageContent) -> Option<i32> {
    match c {
        MessageContent::Video { duration, .. } => Some(duration),
        MessageContent::Animation { duration, .. } => Some(duration),
        _ => None,
    }
}

/// The outbound payload skeleton for an inbound content variant: the same
/// media reference and caption or text carried over. Nothing for content
/// with no outbound equivalent, including a photo without size variants.
pub open spec fn spec_transform(c: MessageContent) -> Option<OutView> {
    match c {
        MessageContent::Text { text } => Some(OutView::Text { text: text@ }),
        MessageContent::Video { video, caption, .. } => Some(OutView::Video {
            video: InputFileView::Id(video.id),
            caption: caption@,
        }),
        MessageContent::Animation { animation, caption, .. } => Some(OutView::Animation {
            animation: InputFileView::Id(animation.id),
            caption: caption@,
        }),
        MessageContent::Document { document, caption, .. } => Some(OutView::Document {
            document: InputFileView::Id(document.id),
            caption: caption@,
        }),
        MessageContent::Photo { first_size, caption } => match first_size {
            Some(f) => Some(OutView::Photo { photo: InputFileView::Id(f.id), caption: caption@ }),
            None => None,
        },
        MessageContent::Other => None,
    }
}

/// The text or caption of an outbound payload.
pub open spec fn spec_output_text(o: OutView) -> Option<Seq<char>> {
    match o {
        OutView::Text { text } => Some(text),
        OutView::Video { caption, .. } => Some(caption),
        OutView::Photo { caption, .. } => Some(caption),
        OutView::Animation { caption, .. } => Some(caption),
        OutView::Document { caption, .. } => Some(caption),
    }
}

/// Overwrite the text or caption of an outbound payload, keeping its
/// media shape; an absent payload is left alone.
pub open spec fn spec_set_text(o: Option<OutView>, t: Seq<char>) -> Option<OutView> {
    match o {
        Some(OutView::Video { video, .. }) => Some(OutView::Video { video, caption: t }),
        Some(OutView::Photo { photo, .. }) => Some(OutView::Photo { photo, caption: t }),
        Some(OutView::Animation { animation, .. }) => Some(
            OutView::Animation { animation, caption: t },
        ),
        Some(OutView::Document { document, .. }) => Some(
            OutView::Document { document, caption: t },
        ),
        Some(OutView::Text { .. }) => Some(OutView::Text { text: t }),
        None => None,
    }
}

/// Meaning of the textual comparison operator: one of `<`, `>`, `=`,
/// `>=`, `<=`; every other token compares nothing and never holds.
pub open spec fn spec_cmp(op: Seq<char>, left: int, right: int) -> bool {
    if op == "<"@ {
        left < right
    } else if op == ">"@ {
        left > right
    } else if op == "="@ {
        left == right
    } else if op == ">="@ {
        left >= right
    } else if op == "<="@ {
        left <= right
    } else {
        false
    }
}

/// String equality by content.
pub fn str_eq(a: &str, b: &str) -> (r: bool)
    ensures
        r == (a@ == b@),
{
    let owned_a = a.to_owned();
    let owned_b = b.to_owned();
    owned_a == owned_b
}

/// Find the text of a message: the body for text messages, the caption
/// for media.
pub fn find_input_message_text(message: &InboundMessage) -> (r: Option<&String>)
    ensures
        match r {
            Some(s) => spec_input_text(message.content) == Some(s@),
            None => spec_input_text(message.content) is None,
        },
{
    match &message.content {
        MessageContent::Text { text } => Some(text),
        MessageContent::Photo { caption, .. } => Some(caption),
        MessageContent::Animation { caption, .. } => Some(caption),
        MessageContent::Video { caption, .. } => Some(caption),
        MessageContent::Document { caption, .. } => Some(caption),
        MessageContent::Other => None,
    }
}

/// Find the file in message content (video, photo, animation, document).
/// For photos this returns the first size variant.
pub fn find_input_message_file(message: &InboundMessage) -> (r: Option<&FileRef>)
    ensures
        match r {
            Some(f) => spec_input_file(message.content) == Some(*f),
            None => spec_input_file(message.content) is None,
        },
{
    match &message.content {
        MessageContent::Video { video, .. } => Some(video),
        MessageContent::Photo { first_size, .. } => match first_size {
            Some(f) => Some(f),
            None => None,
        },
        MessageContent::Animation { animation, .. } => Some(animation),
        MessageContent::Document { document, .. } => Some(document),
        _ => None,
    }
}

/// Find the playback duration of video or animation content.
pub fn find_input_message_duration(message: &InboundMessage) -> (r: Option<i32>)
    ensures
        r == spec_input_duration(message.content),
{
    match &message.content {
        MessageContent::Video { duration, .. } => Some(*duration),
        MessageContent::Animation { duration, .. } => Some(*duration),
        _ => None,
    }
}

/// Find the text of an outbound payload.
pub fn find_output_message_text(message: &OutboundContent) -> (r: Option<&String>)
    ensures
        match r {
            Some(s) => spec_output_text(message@) == Some(s@),
            None => spec_output_text(message@) is None,
        },
{
    match message {
        OutboundContent::Text { text } => Some(text),
        OutboundContent::Video { caption, .. } => Some(caption),
        OutboundContent::Photo { caption, .. } => Some(caption),
        OutboundContent::Animation { caption, .. } => Some(caption),
        OutboundContent::Document { caption, .. } => Some(caption),
    }
}

/// Evaluate a comparison operator given as text against two numbers.
pub fn cmp(operator: &str, left: i64, right: i64) -> (r: bool)
    ensures
        r == spec_cmp(operator@, left as int, right as int),
{
    if str_eq(operator, "<") {
        left < right
    } else if str_eq(operator, ">") {
        left > right
    } else if str_eq(operator, "=") {
        left == right
    } else if str_eq(operator, ">=") {
        left >= right
    } else if str_eq(operator, "<=") {
        left <= right
    } else {
        false
    }
}

/// Evaluate a comparison operator against two lengths.
pub fn cmp_len(operator: &str, left: usize, right: usize) -> (r: bool)
    ensures
        r == spec_cmp(operator@, left as int, right as int),
{
    if str_eq(operator, "<") {
        left < right
    } else if str_eq(operator, ">") {
        left > right
    } else if str_eq(operator, "=") {
        left == right
    } else if str_eq(operator, ">=") {
        left >= right
    } else if str_eq(operator, "<=") {
        left <= right
    } else {
        false
    }
}

/// Transform an inbound message into the outbound payload skeleton;
/// signals unsupported content with an error.
pub fn transform(input: &InboundMessage) -> (r: Result<OutboundContent, ()>)
    ensures
        match r {
            Ok(o) => spec_transform(input.content) == Some(o@),
            Err(()) => spec_transform(input.content) is None,
        },
{
    match &input.content {
        MessageContent::Text { text } => Ok(OutboundContent::Text { text: text.clone() }),
        MessageContent::Video { video, caption, .. } => Ok(OutboundContent::Video {
            video: InputFileRef::Id(video.id),
            caption: caption.clone(),
        }),
        MessageContent::Animation { animation, caption, .. } => Ok(OutboundContent::Animation {
            animation: InputFileRef::Id(animation.id),
            caption: caption.clone(),
        }),
        MessageContent::Document { document, caption, .. } => Ok(OutboundContent::Document {
            document: InputFileRef::Id(document.id),
            caption: caption.clone(),
        }),
        MessageContent::Photo { first_size, caption } => match first_size {
            Some(f) => Ok(OutboundContent::Photo {
                photo: InputFileRef::Id(f.id),
                caption: caption.clone(),
            }),
            None => Err(()),
        },
        MessageContent::Other => Err(()),
    }
}

} // verus!
