//! The message model: what the core reads of an inbound chat message and
//! what it builds as an outbound payload.

use vstd::prelude::*;

verus! {

/// One transferable file attached to a message, as the chat client
/// identifies it: a numeric file id and the size the client expects.
#[derive(Clone, Copy)]
pub struct FileRef {
    pub id: i32,
    pub expected_size: i64,
}

/// The content variant of an inbound message. Media variants carry a
/// caption; video and animation also carry a playback duration in seconds.
pub enum MessageContent {
    Text { text: String },
    /// A photo carries its first size variant, the one the core reads;
    /// a photo the client reported without size variants carries none.
    Photo { first_size: Option<FileRef>, caption: String },
    Video { video: FileRef, duration: i32, caption: String },
    Animation { animation: FileRef, duration: i32, caption: String },
    Document { document: FileRef, mime_type: String, caption: String },
    Other,
}

/// An inbound message: the channel it arrived on, whether this process
/// itself sent it, and its content.
pub struct InboundMessage {
    pub chat_id: i64,
    pub is_outgoing: bool,
    pub content: MessageContent,
}

impl MessageContent {
    /// A copy equal to the original.
    pub fn duplicate(&self) -> (r: Self)
        ensures
            r == *self,
    {
        match self {
            MessageContent::Text { text } => MessageContent::Text { text: text.clone() },
            MessageContent::Photo { first_size, caption } => MessageContent::Photo {
                first_size: *first_size,
                caption: caption.clone(),
            },
            MessageContent::Video { video, duration, caption } => MessageContent::Video {
                video: *video,
                duration: *duration,
                caption: caption.clone(),
            },
            MessageContent::Animation { animation, duration, caption } => MessageContent::Animation {
                animation: *animation,
                duration: *duration,
                caption: caption.clone(),
            },
            MessageContent::Document { document, mime_type, caption } => MessageContent::Document {
                document: *document,
                mime_type: mime_type.clone(),
                caption: caption.clone(),
            },
            MessageContent::Other => MessageContent::Other,
        }
    }
}

impl InboundMessage {
    /// A copy equal to the original.
    pub fn duplicate(&self) -> (r: Self)
        ensures
            r == *self,
    {
        InboundMessage {
            chat_id: self.chat_id,
            is_outgoing: self.is_outgoing,
            content: self.content.duplicate(),
        }
    }
}

/// A file reference inside an outbound payload: either a file id already
/// known to the chat client, or a local file path to upload.
pub enum InputFileRef {
    Id(i32),
    Local(String),
}

/// An outbound payload, ready to be handed to the delivery collaborator.
pub enum OutboundContent {
    Text { text: String },
    Photo { photo: InputFileRef, caption: String },
    Video { video: InputFileRef, caption: String },
    Animation { animation: InputFileRef, caption: String },
    Document { document: InputFileRef, caption: String },
}

impl InputFileRef {
    /// A copy equal to the original.
    pub fn duplicate(&self) -> (r: Self)
        ensures
            r == *self,
    {
        match self {
            InputFileRef::Id(id) => InputFileRef::Id(*id),
            InputFileRef::Local(path) => InputFileRef::Local(path.clone()),
        }
    }
}

/// Mathematical view of an outbound file reference.
pub enum InputFileView {
    Id(i32),
    Local(Seq<char>),
}

/// Mathematical view of an outbound payload: the same shape with the
/// strings as character sequences.
pub enum OutView {
    Text { text: Seq<char> },
    Photo { photo: InputFileView, caption: Seq<char> },
    Video { video: InputFileView, caption: Seq<char> },
    Animation { animation: InputFileView, caption: Seq<char> },
    Document { document: InputFileView, caption: Seq<char> },
}

impl View for InputFileRef {
    type V = InputFileView;

    open spec fn view(&self) -> InputFileView {
        match self {
            InputFileRef::Id(id) => InputFileView::Id(*id),
            InputFileRef::Local(path) => InputFileView::Local(path@),
        }
    }
}

impl View for OutboundContent {
    type V = OutView;

    open spec fn view(&self) -> OutView {
        match self {
            OutboundContent::Text { text } => OutView::Text { text: text@ },
            OutboundContent::Photo { photo, caption } => OutView::Photo {
                photo: photo@,
                caption: caption@,
            },
            OutboundContent::Video { video, caption } => OutView::Video {
                video: video@,
                caption: caption@,
            },
            OutboundContent::Animation { animation, caption } => OutView::Animation {
                animation: animation@,
                caption: caption@,
            },
            OutboundContent::Document { document, caption } => OutView::Document {
                document: document@,
                caption: caption@,
            },
        }
    }
}

/// View of an optional outbound payload.
pub open spec fn opt_out_view(o: Option<OutboundContent>) -> Option<OutView> {
    match o {
        Some(c) => Some(c@),
        None => None,
    }
}

} // verus!
