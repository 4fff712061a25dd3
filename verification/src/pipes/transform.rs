//! The raw passthrough pipe: build the outbound skeleton from the
//! inbound message.

use vstd::prelude::*;

use crate::data::DataHub;
use crate::helpers::{spec_transform, transform};
use crate::message::{opt_out_view, InboundMessage, OutView};

verus! {

/// Transform the inbound message into the outbound skeleton; on content
/// with no outbound equivalent, leave the output as it was.
pub struct Transform;

/// What the transform pipe leaves as output: the skeleton when the
/// content supports one, else the output unchanged.
pub open spec fn transform_apply(m: InboundMessage, cur: Option<OutView>) -> Option<OutView> {
    match spec_transform(m.content) {
        Some(o) => Some(o),
        None => cur,
    }
}

impl Transform {
    pub fn handle(&self, data: &mut DataHub)
        ensures
            final(data).input == old(data).input,
            opt_out_view(final(data).output) == transform_apply(
                old(data).input,
                opt_out_view(old(data).output),
            ),
    {
        if let Ok(new_message) = transform(&data.input) {
            data.output = Some(new_message);
        }
    }
}

} // verus!
