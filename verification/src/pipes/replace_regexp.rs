//! The pattern search-and-replace pipe: rewrite the first or every match
//! of a regular expression.

use vstd::prelude::*;

use crate::data::DataHub;
use crate::helpers::{find_output_message_text, spec_output_text, spec_set_text};
use crate::message::{opt_out_view, OutView};
use crate::outside::{
    regex_replace_all, regex_replace_first, regex_replaced_all, regex_replaced_first,
};

verus! {

/// Replace the first match (or, with `all`, every match) of the pattern
/// with the replacement. With no pattern set the pipe does nothing.
pub struct ReplaceRegexp {
    pub search: Option<String>,
    pub replace: String,
    pub all: bool,
}

/// What the pattern-replace pipe leaves as output: nothing changes with
/// no output, no text, no pattern or a pattern that does not compile;
/// else the rewritten text, written back only when it differs.
pub open spec fn replace_regexp_apply(p: ReplaceRegexp, cur: Option<OutView>) -> Option<OutView> {
    match cur {
        None => None,
        Some(o) => match spec_output_text(o) {
            None => cur,
            Some(t) => match p.search {
                None => cur,
                Some(pat) => {
                    let res = if p.all {
                        regex_replaced_all(pat@, t, p.replace@)
                    } else {
                        regex_replaced_first(pat@, t, p.replace@)
                    };
                    match res {
                        None => cur,
                        Some(t2) => if t2 == t {
                            cur
                        } else {
                            spec_set_text(cur, t2)
                        },
                    }
                },
            },
        },
    }
}

impl ReplaceRegexp {
    pub fn builder() -> (r: ReplaceRegexpBuilder)
        ensures
            r.inner.search is None,
            r.inner.replace@ == Seq::<char>::empty(),
            r.inner.all == false,
    {
        ReplaceRegexpBuilder {
            inner: ReplaceRegexp { search: None, replace: String::new(), all: false },
        }
    }

    /// Rewrite the output's text by the pattern, first match or all.
    pub fn handle(&self, data: &mut DataHub)
        ensures
            final(data).input == old(data).input,
            opt_out_view(final(data).output) == replace_regexp_apply(
                ReplaceRegexp { search: self.search, replace: self.replace, all: self.all },
                opt_out_view(old(data).output),
            ),
    {
        let current = match &data.output {
            Some(m) => match find_output_message_text(m) {
                Some(t) => t.clone(),
                None => {
                    return;
                },
            },
            None => {
                return;
            },
        };
        let pattern = match &self.search {
            Some(p) => p,
            None => {
                return;
            },
        };
        let rewritten = if self.all {
            regex_replace_all(pattern.as_str(), current.as_str(), self.replace.as_str())
        } else {
            regex_replace_first(pattern.as_str(), current.as_str(), self.replace.as_str())
        };
        let replaced = match rewritten {
            Some(r) => r,
            None => {
                return;
            },
        };
        if current == replaced {
            return;
        }
        data.set_output_text(replaced);
    }
}

pub struct ReplaceRegexpBuilder {
    pub inner: ReplaceRegexp,
}

impl ReplaceRegexpBuilder {
    pub fn search(self, search: String) -> (r: ReplaceRegexpBuilder)
        ensures
            r.inner.search == Some(search),
            r.inner.replace == self.inner.replace,
            r.inner.all == self.inner.all,
    {
        ReplaceRegexpBuilder {
            inner: ReplaceRegexp {
                search: Some(search),
                replace: self.inner.replace,
                all: self.inner.all,
            },
        }
    }

    pub fn replace(self, replace: String) -> (r: ReplaceRegexpBuilder)
        ensures
            r.inner.replace == replace,
            r.inner.search == self.inner.search,
            r.inner.all == self.inner.all,
    {
        ReplaceRegexpBuilder {
            inner: ReplaceRegexp { search: self.inner.search, replace, all: self.inner.all },
        }
    }

    pub fn all(self, all: bool) -> (r: ReplaceRegexpBuilder)
        ensures
            r.inner.all == all,
            r.inner.search == self.inner.search,
            r.inner.replace == self.inner.replace,
    {
        ReplaceRegexpBuilder {
            inner: ReplaceRegexp { search: self.inner.search, replace: self.inner.replace, all },
        }
    }

    pub fn build(self) -> (r: ReplaceRegexp)
        ensures
            r == self.inner,
    {
        self.inner
    }
}

} // verus!
