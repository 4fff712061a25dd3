//! The pattern filter: pass exactly the messages whose text a regular
//! expression matches.

use vstd::prelude::*;

use crate::data::DataHub;
use crate::filter::FilterResult;
use crate::helpers::{find_input_message_text, spec_input_text};
use crate::message::MessageContent;
use crate::outside::{regex_match, regex_match_of};

verus! {

/// Pass messages whose text the regular expression matches. With no
/// expression set, every message is rejected.
pub struct Regexp {
    pub exp: Option<String>,
}

/// A message passes when it has a text, the expression is set and
/// compiles, and the pattern matches the text.
pub open spec fn regexp_passes(f: Regexp, c: MessageContent) -> bool {
    match f.exp {
        Some(e) => match spec_input_text(c) {
            Some(t) => regex_match_of(e@, t) == Some(true),
            None => false,
        },
        None => false,
    }
}

impl Regexp {
    pub fn builder() -> (r: RegexpBuilder)
        ensures
            r.inner.exp is None,
    {
        RegexpBuilder { inner: Regexp { exp: None } }
    }

    /// Reject messages without a text, and every message when the
    /// expression is absent or does not compile; otherwise pass exactly
    /// when the pattern matches.
    pub fn filter(&self, data: &DataHub) -> (r: FilterResult)
        ensures
            r is Ok <==> regexp_passes(*self, data.input.content),
    {
        let exp = match &self.exp {
            Some(e) => e,
            None => {
                return Err(());
            },
        };
        let text = match find_input_message_text(&data.input) {
            Some(t) => t,
            None => {
                return Err(());
            },
        };
        match regex_match(exp.as_str(), text.as_str()) {
            Some(true) => Ok(()),
            _ => Err(()),
        }
    }
}

pub struct RegexpBuilder {
    pub inner: Regexp,
}

impl RegexpBuilder {
    pub fn expression(self, exp: String) -> (r: RegexpBuilder)
        ensures
            r.inner.exp == Some(exp),
    {
        RegexpBuilder { inner: Regexp { exp: Some(exp) } }
    }

    pub fn build(self) -> (r: Regexp)
        ensures
            r == self.inner,
    {
        self.inner
    }
}

} // verus!
