//! The word-list filters: case-insensitive substring checks against a
//! list of words, in white-list or black-list mode.

use vstd::prelude::*;

use crate::data::DataHub;
use crate::filter::FilterResult;
use crate::helpers::{find_input_message_text, spec_input_text};
use crate::message::MessageContent;
use crate::outside::{lower_of, spec_contains, str_contains, to_lowercase};

verus! {

/// Whether a matching word passes the message or rejects it.
#[derive(Clone, Copy)]
pub enum WordListType {
    BlackList,
    WhiteList,
}

impl Default for WordListType {
    fn default() -> (r: Self)
        ensures
            r is BlackList,
    {
        WordListType::BlackList
    }
}

/// A case-insensitive word check against the message's text (an absent
/// text counts as empty). White-list mode passes exactly when some word
/// occurs; black-list mode passes exactly when none does.
pub struct WordList {
    pub list_type: WordListType,
    pub words: Vec<String>,
}

/// Whether any of the words occurs, case-insensitively, in the text.
pub open spec fn wordlist_contains_any(words: Seq<String>, t: Seq<char>) -> bool {
    exists|i: int|
        0 <= i < words.len() && spec_contains(lower_of(t), lower_of(#[trigger] words[i]@))
}

/// The text the word check runs against: the message text, or empty.
pub open spec fn wordlist_text(c: MessageContent) -> Seq<char> {
    match spec_input_text(c) {
        Some(t) => t,
        None => ""@,
    }
}

pub open spec fn wordlist_passes(w: WordList, c: MessageContent) -> bool {
    match w.list_type {
        WordListType::WhiteList => wordlist_contains_any(w.words@, wordlist_text(c)),
        WordListType::BlackList => !wordlist_contains_any(w.words@, wordlist_text(c)),
    }
}

impl WordList {
    pub fn builder() -> (r: WordListBuilder)
        ensures
            r.inner.list_type is BlackList,
            r.inner.words@.len() == 0,
    {
        WordListBuilder { inner: WordList { list_type: WordListType::BlackList, words: Vec::new() } }
    }

    /// Pass or reject by whether any listed word occurs in the lowered
    /// text, according to the list mode.
    pub fn filter(&self, data: &DataHub) -> (r: FilterResult)
        ensures
            r is Ok <==> wordlist_passes(*self, data.input.content),
    {
        let lowered = match find_input_message_text(&data.input) {
            Some(t) => to_lowercase(t.as_str()),
            None => to_lowercase(""),
        };
        let mut contains_any = false;
        let mut i: usize = 0;
        while i < self.words.len()
            invariant
                0 <= i <= self.words@.len(),
                lowered@ == lower_of(wordlist_text(data.input.content)),
                contains_any == exists|j: int|
                    0 <= j < i && spec_contains(lowered@, lower_of(#[trigger] self.words@[j]@)),
            decreases self.words@.len() - i,
        {
            let word = to_lowercase(self.words[i].as_str());
            if str_contains(lowered.as_str(), word.as_str()) {
                contains_any = true;
            }
            i = i + 1;
        }
        let passes = match self.list_type {
            WordListType::WhiteList => contains_any,
            WordListType::BlackList => !contains_any,
        };
        if passes {
            Ok(())
        } else {
            Err(())
        }
    }
}

pub struct WordListBuilder {
    pub inner: WordList,
}

impl WordListBuilder {
    pub fn words(self, words: Vec<String>) -> (r: WordListBuilder)
        ensures
            r.inner.words == words,
            r.inner.list_type == self.inner.list_type,
    {
        WordListBuilder { inner: WordList { list_type: self.inner.list_type, words } }
    }

    pub fn list_type(self, list_type: WordListType) -> (r: WordListBuilder)
        ensures
            r.inner.list_type == list_type,
            r.inner.words == self.inner.words,
    {
        WordListBuilder { inner: WordList { list_type, words: self.inner.words } }
    }

    pub fn build(self) -> (r: WordList)
        ensures
            r == self.inner,
    {
        self.inner
    }
}

} // verus!
