//! The static pipes: overwrite the output's text, or replace the whole
//! output with a photo from a fixed local file.

use vstd::prelude::*;

use crate::data::DataHub;
use crate::helpers::{find_output_message_text, spec_output_text, spec_set_text};
use crate::message::{opt_out_view, InputFileRef, InputFileView, OutView, OutboundContent};

verus! {

/// Overwrite the text of the current output: the caption on media
/// content, the body on text content.
pub struct StaticText {
    pub text: String,
}

impl StaticText {
    pub fn builder() -> (r: StaticTextBuilder)
        ensures
            r.inner.text@ == Seq::<char>::empty(),
    {
        StaticTextBuilder { inner: StaticText { text: String::new() } }
    }

    pub fn handle(&self, data: &mut DataHub)
        ensures
            final(data).input == old(data).input,
            opt_out_view(final(data).output) == spec_set_text(
                opt_out_view(old(data).output),
                self.text@,
            ),
    {
        data.set_output_text(self.text.clone());
    }
}

pub struct StaticTextBuilder {
    pub inner: StaticText,
}

impl StaticTextBuilder {
    pub fn text(self, text: String) -> (r: StaticTextBuilder)
        ensures
            r.inner.text == text,
    {
        StaticTextBuilder { inner: StaticText { text } }
    }

    pub fn build(self) -> (r: StaticText)
        ensures
            r == self.inner,
    {
        self.inner
    }
}

/// Replace the whole output with a photo payload sourced from a fixed
/// local file, carrying over any existing caption text.
pub struct StaticPhoto {
    pub path: String,
}

/// What the static-photo pipe leaves as output: with no output to act
/// on, nothing; else a photo from the local path, captioned with the
/// previous output's text (empty when it had none).
pub open spec fn static_photo_apply(path: Seq<char>, cur: Option<OutView>) -> Option<OutView> {
    match cur {
        None => None,
        Some(o) => Some(
            OutView::Photo {
                photo: InputFileView::Local(path),
                caption: match spec_output_text(o) {
                    Some(t) => t,
                    None => Seq::<char>::empty(),
                },
            },
        ),
    }
}

impl StaticPhoto {
    pub fn builder() -> (r: StaticPhotoBuilder)
        ensures
            r.inner.path@ == Seq::<char>::empty(),
    {
        StaticPhotoBuilder { inner: StaticPhoto { path: String::new() } }
    }

    pub fn handle(&self, data: &mut DataHub)
        ensures
            final(data).input == old(data).input,
            opt_out_view(final(data).output) == static_photo_apply(
                self.path@,
                opt_out_view(old(data).output),
            ),
    {
        let caption = match &data.output {
            Some(m) => match find_output_message_text(m) {
                Some(t) => t.clone(),
                None => String::new(),
            },
            None => {
                return;
            },
        };
        data.output = Some(
            OutboundContent::Photo { photo: InputFileRef::Local(self.path.clone()), caption },
        );
    }
}

pub struct StaticPhotoBuilder {
    pub inner: StaticPhoto,
}

impl StaticPhotoBuilder {
    pub fn path(self, path: String) -> (r: StaticPhotoBuilder)
        ensures
            r.inner.path == path,
    {
        StaticPhotoBuilder { inner: StaticPhoto { path } }
    }

    pub fn build(self) -> (r: StaticPhoto)
        ensures
            r == self.inner,
    {
        self.inner
    }
}

} // verus!
