//! The literal search-and-replace pipe.

use vstd::prelude::*;

use crate::data::DataHub;
use crate::helpers::{find_output_message_text, spec_output_text, spec_set_text};
use crate::message::{opt_out_view, OutView};
use crate::outside::{replace_literal, spec_contains, str_replaced};

verus! {

/// Replace every literal occurrence of each search term, in order, with
/// the replacement.
pub struct Replace {
    pub search: Vec<String>,
    pub replace: String,
}

/// The text after the search terms are replaced one after the other.
pub open spec fn replace_terms(terms: Seq<String>, t: Seq<char>, rep: Seq<char>) -> Seq<char>
    decreases terms.len(),
{
    if terms.len() == 0 {
        t
    } else {
        replace_terms(terms.skip(1), str_replaced(t, terms[0]@, rep), rep)
    }
}

/// What the replace pipe leaves as output: with no output or no text,
/// nothing changes; else the text with every term replaced, written back
/// only when it differs.
pub open spec fn replace_apply(p: Replace, cur: Option<OutView>) -> Option<OutView> {
    match cur {
        None => None,
        Some(o) => match spec_output_text(o) {
            None => cur,
            Some(t) => {
                let t2 = replace_terms(p.search@, t, p.replace@);
                if t2 == t {
                    cur
                } else {
                    spec_set_text(cur, t2)
                }
            },
        },
    }
}

impl Replace {
    pub fn builder() -> (r: ReplaceBuilder)
        ensures
            r.inner.search@.len() == 0,
            r.inner.replace@ == Seq::<char>::empty(),
    {
        ReplaceBuilder { inner: Replace { search: Vec::new(), replace: String::new() } }
    }

    /// Rewrite the output's text with every search term replaced. When no
    /// search term occurs in the current text, the output is unchanged.
    pub fn handle(&self, data: &mut DataHub)
        ensures
            final(data).input == old(data).input,
            opt_out_view(final(data).output) == replace_apply(
                *self,
                opt_out_view(old(data).output),
            ),
            ({
                let cur = opt_out_view(old(data).output);
                match cur {
                    Some(o) => match spec_output_text(o) {
                        Some(t) => (forall|i: int|
                            0 <= i < self.search@.len() ==> !spec_contains(
                                t,
                                #[trigger] self.search@[i]@,
                            )) ==> final(data).output == old(data).output,
                        None => true,
                    },
                    None => true,
                }
            }),
    {
        let current = match &data.output {
            Some(m) => match find_output_message_text(m) {
                Some(t) => t.clone(),
                None => {
                    return;
                },
            },
            None => {
                return;
            },
        };
        let ghost t: Seq<char> = current@;
        let mut replaced = current.clone();
        proof {
            assert(self.search@.skip(0) =~= self.search@);
        }
        let mut i: usize = 0;
        while i < self.search.len()
            invariant
                0 <= i <= self.search@.len(),
                replace_terms(self.search@, t, self.replace@) == replace_terms(
                    self.search@.skip(i as int),
                    replaced@,
                    self.replace@,
                ),
                (forall|k: int|
                    0 <= k < self.search@.len() ==> !spec_contains(t, #[trigger] self.search@[k]@))
                    ==> replaced@ == t,
            decreases self.search@.len() - i,
        {
            let next = replace_literal(
                replaced.as_str(),
                self.search[i].as_str(),
                self.replace.as_str(),
            );
            proof {
                assert(self.search@.skip(i as int).skip(1) =~= self.search@.skip(i + 1));
                assert(self.search@.skip(i as int)[0] == self.search@[i as int]);
            }
            replaced = next;
            i = i + 1;
        }
        proof {
            assert(self.search@.skip(self.search@.len() as int) =~= Seq::<String>::empty());
        }
        if current == replaced {
            return;
        }
        data.set_output_text(replaced);
    }
}

pub struct ReplaceBuilder {
    pub inner: Replace,
}

impl ReplaceBuilder {
    pub fn search(self, search: Vec<String>) -> (r: ReplaceBuilder)
        ensures
            r.inner.search == search,
            r.inner.replace == self.inner.replace,
    {
        ReplaceBuilder { inner: Replace { search, replace: self.inner.replace } }
    }

    pub fn replace(self, replace: String) -> (r: ReplaceBuilder)
        ensures
            r.inner.replace == replace,
            r.inner.search == self.inner.search,
    {
        ReplaceBuilder { inner: Replace { search: self.inner.search, replace } }
    }

    pub fn build(self) -> (r: Replace)
        ensures
            r == self.inner,
    {
        self.inner
    }
}

} // verus!
