//! The duration filter: compare the playback duration of video or
//! animation content against a threshold.

use vstd::prelude::*;

use crate::data::DataHub;
use crate::filter::FilterResult;
use crate::helpers::{cmp, find_input_message_duration, spec_cmp, spec_input_duration};
use crate::message::MessageContent;

verus! {

/// Compare media duration (seconds) against a threshold with a textual
/// comparison operator.
pub struct Duration {
    pub duration: i32,
    pub op: String,
}

/// A message passes when it has a duration and the comparison holds.
pub open spec fn duration_passes(f: Duration, c: MessageContent) -> bool {
    match spec_input_duration(c) {
        Some(d) => spec_cmp(f.op@, d as int, f.duration as int),
        None => false,
    }
}

impl Duration {
    pub fn builder() -> (r: DurationBuilder)
        ensures
            r.inner.duration == 0,
            r.inner.op@ == Seq::<char>::empty(),
    {
        DurationBuilder { inner: Duration { duration: 0, op: String::new() } }
    }

    /// Reject messages without a duration; otherwise compare it against
    /// the threshold.
    pub fn filter(&self, data: &DataHub) -> (r: FilterResult)
        ensures
            r is Ok <==> duration_passes(*self, data.input.content),
    {
        match find_input_message_duration(&data.input) {
            Some(d) => if cmp(self.op.as_str(), d as i64, self.duration as i64) {
                Ok(())
            } else {
                Err(())
            },
            None => Err(()),
        }
    }
}

pub struct DurationBuilder {
    pub inner: Duration,
}

impl DurationBuilder {
    pub fn duration(self, duration: i32) -> (r: DurationBuilder)
        ensures
            r.inner.duration == duration,
            r.inner.op == self.inner.op,
    {
        DurationBuilder { inner: Duration { duration, op: self.inner.op } }
    }

    pub fn operator(self, op: String) -> (r: DurationBuilder)
        ensures
            r.inner.op == op,
            r.inner.duration == self.inner.duration,
    {
        DurationBuilder { inner: Duration { duration: self.inner.duration, op } }
    }

    pub fn build(self) -> (r: Duration)
        ensures
            r == self.inner,
    {
        self.inner
    }
}

} // verus!
