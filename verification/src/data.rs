//! The processing context: one inbound message and the evolving outbound
//! payload, owned by a single pipeline execution.

use vstd::prelude::*;

use crate::helpers::spec_set_text;
use crate::message::{opt_out_view, InboundMessage, OutboundContent};

verus! {

/// Per-message scratch object: the raw inbound message and the optional
/// outbound payload the pipes build.
pub struct DataHub {
    pub input: InboundMessage,
    pub output: Option<OutboundContent>,
}

impl DataHub {
    /// A fresh context with no output yet.
    pub fn new(input: InboundMessage) -> (r: Self)
        ensures
            r.input == input,
            r.output is None,
    {
        DataHub { input, output: None }
    }

    /// Overwrite the text or caption of the current output, keeping its
    /// media shape; does nothing when there is no output to rewrite.
    pub fn set_output_text(&mut self, text: String)
        ensures
            final(self).input == old(self).input,
            opt_out_view(final(self).output) == spec_set_text(
                opt_out_view(old(self).output),
                text@,
            ),
    {
        match &self.output {
            Some(OutboundContent::Video { video, .. }) => {
                let video = video.duplicate();
                self.output = Some(OutboundContent::Video { video, caption: text });
            },
            Some(OutboundContent::Photo { photo, .. }) => {
                let photo = photo.duplicate();
                self.output = Some(OutboundContent::Photo { photo, caption: text });
            },
            Some(OutboundContent::Animation { animation, .. }) => {
                let animation = animation.duplicate();
                self.output = Some(OutboundContent::Animation { animation, caption: text });
            },
            Some(OutboundContent::Document { document, .. }) => {
                let document = document.duplicate();
                self.output = Some(OutboundContent::Document { document, caption: text });
            },
            Some(OutboundContent::Text { .. }) => {
                self.output = Some(OutboundContent::Text { text });
            },
            None => {},
        }
    }
}

} // verus!
