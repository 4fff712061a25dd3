//! The text-length filter: compare the byte length of the text or
//! caption against a threshold.

use vstd::prelude::*;
use vstd::utf8::encode_utf8;

use crate::data::DataHub;
use crate::filter::FilterResult;
use crate::helpers::{cmp_len, find_input_message_text, spec_cmp, spec_input_text};
use crate::message::MessageContent;

verus! {

/// Compare the byte length of the extracted text against a threshold
/// with a textual comparison operator.
pub struct TextLength {
    pub len: u16,
    pub op: String,
}

/// A message passes when it has a text and the comparison of that text's
/// byte length against the threshold holds.
pub open spec fn textlength_passes(f: TextLength, c: MessageContent) -> bool {
    match spec_input_text(c) {
        Some(t) => spec_cmp(f.op@, (encode_utf8(t).len() as usize) as int, f.len as int),
        None => false,
    }
}

impl TextLength {
    pub fn builder() -> (r: TextLengthBuilder)
        ensures
            r.inner.len == 0,
            r.inner.op@ == Seq::<char>::empty(),
    {
        TextLengthBuilder { inner: TextLength { len: 0, op: String::new() } }
    }

    /// Reject messages without a text; otherwise compare its byte length
    /// against the threshold.
    pub fn filter(&self, data: &DataHub) -> (r: FilterResult)
        ensures
            r is Ok <==> textlength_passes(*self, data.input.content),
    {
        match find_input_message_text(&data.input) {
            Some(text) => if cmp_len(self.op.as_str(), text.as_str().len(), self.len as usize) {
                Ok(())
            } else {
                Err(())
            },
            None => Err(()),
        }
    }
}

pub struct TextLengthBuilder {
    pub inner: TextLength,
}

impl TextLengthBuilder {
    pub fn length(self, len: u16) -> (r: TextLengthBuilder)
        ensures
            r.inner.len == len,
            r.inner.op == self.inner.op,
    {
        TextLengthBuilder { inner: TextLength { len, op: self.inner.op } }
    }

    pub fn operator(self, op: String) -> (r: TextLengthBuilder)
        ensures
            r.inner.op == op,
            r.inner.len == self.inner.len,
    {
        TextLengthBuilder { inner: TextLength { len: self.inner.len, op } }
    }

    pub fn build(self) -> (r: TextLength)
        ensures
            r == self.inner,
    {
        self.inner
    }
}

} // verus!
