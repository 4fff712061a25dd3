//! The built-in filter that passes only messages this process did not
//! send itself.

use vstd::prelude::*;

use crate::data::DataHub;
use crate::filter::FilterResult;
use crate::message::InboundMessage;

verus! {

/// Passes only incoming messages: those not sent by the process itself.
pub struct Incoming;

/// An inbound message passes the incoming check when it is not outgoing.
pub open spec fn incoming_passes(m: InboundMessage) -> bool {
    !m.is_outgoing
}

impl Incoming {
    /// Pass exactly the messages the process did not send itself.
    pub fn filter(&self, data: &DataHub) -> (r: FilterResult)
        ensures
            r is Ok <==> incoming_passes(data.input),
    {
        if !data.input.is_outgoing {
            Ok(())
        } else {
            Err(())
        }
    }
}

} // verus!
