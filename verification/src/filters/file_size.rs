//! The file-size filter: compare the expected size of the attached file
//! against a threshold.

use vstd::prelude::*;

use crate::data::DataHub;
use crate::filter::FilterResult;
use crate::helpers::{cmp, find_input_message_file, spec_cmp, spec_input_file};
use crate::message::MessageContent;

verus! {

/// Compare the attached file's expected size against a threshold, both
/// in bytes, with a textual comparison operator.
pub struct FileSize {
    pub size: i64,
    pub op: String,
}

/// A message passes when it carries a file and the comparison holds.
pub open spec fn file_size_passes(f: FileSize, c: MessageContent) -> bool {
    match spec_input_file(c) {
        Some(file) => spec_cmp(f.op@, file.expected_size as int, f.size as int),
        None => false,
    }
}

impl FileSize {
    pub fn builder() -> (r: FileSizeBuilder)
        ensures
            r.inner.size == 0,
            r.inner.op@ == Seq::<char>::empty(),
    {
        FileSizeBuilder { inner: FileSize { size: 0, op: String::new() } }
    }

    /// Reject messages without a file; otherwise compare its expected
    /// size against the threshold.
    pub fn filter(&self, data: &DataHub) -> (r: FilterResult)
        ensures
            r is Ok <==> file_size_passes(*self, data.input.content),
    {
        match find_input_message_file(&data.input) {
            Some(file) => if cmp(self.op.as_str(), file.expected_size, self.size) {
                Ok(())
            } else {
                Err(())
            },
            None => Err(()),
        }
    }
}

pub struct FileSizeBuilder {
    pub inner: FileSize,
}

impl FileSizeBuilder {
    /// The size threshold, in bytes.
    pub fn size(self, size: i64) -> (r: FileSizeBuilder)
        ensures
            r.inner.size == size,
            r.inner.op == self.inner.op,
    {
        FileSizeBuilder { inner: FileSize { size, op: self.inner.op } }
    }

    pub fn operator(self, op: String) -> (r: FileSizeBuilder)
        ensures
            r.inner.op == op,
            r.inner.size == self.inner.size,
    {
        FileSizeBuilder { inner: FileSize { size: self.inner.size, op } }
    }

    pub fn build(self) -> (r: FileSize)
        ensures
            r == self.inner,
    {
        self.inner
    }
}

} // verus!
