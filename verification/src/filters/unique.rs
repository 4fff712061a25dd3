//! The dedup filter: pass a text the first time it is seen, reject every
//! repeat, with the seen-set persisted in an on-disk store.

use vstd::prelude::*;

use crate::data::DataHub;
use crate::filter::FilterResult;
use crate::helpers::spec_input_text;
use crate::message::MessageContent;
use crate::outside::{md5_hex, md5_hex_of, store_has, store_keys, store_record};

verus! {

/// Passes a message whose text digest is not yet in the persisted store,
/// recording it; rejects a repeat. A message without a text always
/// passes. A store failure rejects (fail-closed).
pub struct Unique {
    pub db: pickledb::PickleDb,
}

/// How one dedup invocation relates the store before and after to the
/// verdict. With no text the store is untouched and the message passes.
/// With a digest already recorded the message is rejected and the store
/// unchanged. With a fresh digest, a pass records exactly that digest;
/// a store failure leaves the keys unchanged and rejects.
pub open spec fn unique_rel(pre: Unique, post: Unique, c: MessageContent, passed: bool) -> bool {
    match spec_input_text(c) {
        None => post == pre && passed,
        Some(t) => {
            let d = md5_hex_of(t);
            if store_keys(pre.db).contains(d) {
                !passed && post == pre
            } else {
                &&& (passed ==> store_keys(post.db) == store_keys(pre.db).insert(d))
                &&& (!passed ==> store_keys(post.db) == store_keys(pre.db))
            }
        },
    }
}

impl Unique {
    /// A dedup filter over the given persisted store.
    pub fn new(db: pickledb::PickleDb) -> (r: Self)
        ensures
            r.db == db,
    {
        Unique { db }
    }

    /// Pass exactly the first occurrence of a text, recording its digest;
    /// reject repeats, and reject when the store cannot record.
    pub fn filter(&mut self, data: &DataHub) -> (r: FilterResult)
        ensures
            unique_rel(*old(self), *final(self), data.input.content, r is Ok),
    {
        match crate::helpers::find_input_message_text(&data.input) {
            None => Ok(()),
            Some(text) => {
                let digest = md5_hex(text.as_str());
                if store_has(&self.db, digest.as_str()) {
                    Err(())
                } else if store_record(&mut self.db, digest.as_str()) {
                    Ok(())
                } else {
                    Err(())
                }
            },
        }
    }
}

/// One dedup step never forgets a digest: the keys after a step hold
/// everything they held before.
pub proof fn lemma_unique_monotone(pre: Unique, post: Unique, c: MessageContent, passed: bool)
    requires
        unique_rel(pre, post, c, passed),
    ensures
        store_keys(pre.db).subset_of(store_keys(post.db)),
{
}

/// A pass records the digest of the text that passed.
pub proof fn lemma_unique_pass_records(pre: Unique, post: Unique, c: MessageContent, t: Seq<char>)
    requires
        unique_rel(pre, post, c, true),
        spec_input_text(c) == Some(t),
    ensures
        store_keys(post.db).contains(md5_hex_of(t)),
{
}

/// Once a text's digest is in the store, every later occurrence of the
/// identical text is rejected: after a first occurrence of text `t`
/// passed, and any number of interleaved steps (which only grow the
/// keys), a repeat of `t` cannot pass.
pub proof fn lemma_unique_rejects_repeat(
    later_pre: Unique,
    later_post: Unique,
    c: MessageContent,
    t: Seq<char>,
    passed: bool,
)
    requires
        unique_rel(later_pre, later_post, c, passed),
        spec_input_text(c) == Some(t),
        store_keys(later_pre.db).contains(md5_hex_of(t)),
    ensures
        !passed,
{
}

/// A run of consecutive dedup invocations on one filter: `states` holds
/// the filter before and after each step, `contents` and `verdicts` the
/// message and the verdict of each step.
pub open spec fn unique_chain(
    states: Seq<Unique>,
    contents: Seq<MessageContent>,
    verdicts: Seq<bool>,
) -> bool {
    &&& states.len() == contents.len() + 1
    &&& verdicts.len() == contents.len()
    &&& forall|i: int|
        0 <= i < contents.len() ==> unique_rel(
            states[i],
            states[i + 1],
            #[trigger] contents[i],
            verdicts[i],
        )
}

proof fn lemma_unique_chain_monotone(
    states: Seq<Unique>,
    contents: Seq<MessageContent>,
    verdicts: Seq<bool>,
    a: int,
    b: int,
)
    requires
        unique_chain(states, contents, verdicts),
        0 <= a <= b < states.len(),
    ensures
        store_keys(states[a].db).subset_of(store_keys(states[b].db)),
    decreases b - a,
{
    if a < b {
        lemma_unique_chain_monotone(states, contents, verdicts, a, b - 1);
        lemma_unique_monotone(states[b - 1], states[b], contents[b - 1], verdicts[b - 1]);
    }
}

/// The dedup check passes a first occurrence of a text and rejects every
/// subsequent occurrence of the identical text: once the step at `first`
/// passed a message with text `t`, every later step whose message
/// carries the identical text rejects, whatever ran in between. (A step
/// with a fresh text may also reject, fail-closed, when the store cannot
/// record; but it can never pass a repeat.)
pub proof fn lemma_unique_first_pass_rejects_repeats(
    states: Seq<Unique>,
    contents: Seq<MessageContent>,
    verdicts: Seq<bool>,
    first: int,
    later: int,
    t: Seq<char>,
)
    requires
        unique_chain(states, contents, verdicts),
        0 <= first < later < contents.len(),
        spec_input_text(contents[first]) == Some(t),
        spec_input_text(contents[later]) == Some(t),
        verdicts[first],
    ensures
        !verdicts[later],
{
    lemma_unique_pass_records(states[first], states[first + 1], contents[first], t);
    lemma_unique_chain_monotone(states, contents, verdicts, first + 1, later);
    lemma_unique_rejects_repeat(
        states[later],
        states[later + 1],
        contents[later],
        t,
        verdicts[later],
    );
}

} // verus!
