//! The closed set of filters, one step relation over them, and their
//! construction from configuration.

use vstd::prelude::*;

use crate::config::FilterConf;
use crate::data::DataHub;
use crate::filters::ai::Context;
use crate::filters::counter::{counter_passes, counter_stepped, Counter};
use crate::filters::duration::{duration_passes, Duration};
use crate::filters::file_size::{file_size_passes, FileSize};
use crate::filters::incoming::{incoming_passes, Incoming};
use crate::filters::message_type::{type_passes, MessageType};
use crate::filters::openai::OpenAi;
use crate::filters::regexp::{regexp_passes, Regexp};
use crate::filters::text_length::{textlength_passes, TextLength};
use crate::filters::unique::{unique_rel, Unique};
use crate::filters::wordlist::{wordlist_passes, WordList, WordListType};
use crate::message::InboundMessage;
use crate::moderation::ModerationService;
use crate::outside::store_open;

verus! {

/// Filters answer pass or reject.
pub type FilterResult = Result<(), ()>;

/// Every filter the core knows.
pub enum FilterType {
    /// Pass only incoming (not self-sent) messages.
    Incoming(Incoming),
    /// Pass one message in every `count + 1`.
    Counter(Counter),
    /// Only text messages.
    Text(MessageType),
    /// Only video messages.
    Video(MessageType),
    /// Only photo messages.
    Photo(MessageType),
    /// Only animation messages, a GIF document included.
    Animation(MessageType),
    /// Only document messages.
    Document(MessageType),
    /// Any media message: video, photo, animation or document.
    AnyFile(MessageType),
    /// Compare the attached file's size against a threshold.
    FileSize(FileSize),
    /// Compare video or animation duration against a threshold.
    Duration(Duration),
    /// Compare the text or caption length against a threshold.
    TextLength(TextLength),
    /// Pass messages whose text a regular expression matches.
    Regexp(Regexp),
    /// Pass messages containing any listed word.
    WhiteList(WordList),
    /// Pass messages containing no listed word.
    BlackList(WordList),
    /// Pass only the first occurrence of a text, via the persisted store.
    Unique(Unique),
    /// Delegate the decision to the external moderation collaborator.
    OpenAi(OpenAi),
    /// Delegate the decision, with the numeric answer format.
    Context(Context),
}

/// How one filter invocation relates its state before and after to the
/// verdict. Stateless filters keep their state and their verdict is a
/// function of the message; the counter steps deterministically; the
/// dedup filter steps its store as `unique_rel` says; a delegated
/// moderation check keeps its state and its verdict is the external
/// collaborator's.
pub open spec fn filter_step(
    pre: FilterType,
    post: FilterType,
    m: InboundMessage,
    passed: bool,
) -> bool {
    match pre {
        FilterType::Incoming(_) => post == pre && passed == incoming_passes(m),
        FilterType::Counter(c) => post == FilterType::Counter(counter_stepped(c)) && passed
            == counter_passes(c),
        FilterType::Text(t) => post == pre && passed == type_passes(t, m.content),
        FilterType::Video(t) => post == pre && passed == type_passes(t, m.content),
        FilterType::Photo(t) => post == pre && passed == type_passes(t, m.content),
        FilterType::Animation(t) => post == pre && passed == type_passes(t, m.content),
        FilterType::Document(t) => post == pre && passed == type_passes(t, m.content),
        FilterType::AnyFile(t) => post == pre && passed == type_passes(t, m.content),
        FilterType::FileSize(f) => post == pre && passed == file_size_passes(f, m.content),
        FilterType::Duration(d) => post == pre && passed == duration_passes(d, m.content),
        FilterType::TextLength(t) => post == pre && passed == textlength_passes(t, m.content),
        FilterType::Regexp(rx) => post == pre && passed == regexp_passes(rx, m.content),
        FilterType::WhiteList(w) => post == pre && passed == wordlist_passes(w, m.content),
        FilterType::BlackList(w) => post == pre && passed == wordlist_passes(w, m.content),
        FilterType::Unique(u) => match post {
            FilterType::Unique(u2) => unique_rel(u, u2, m.content, passed),
            _ => false,
        },
        FilterType::OpenAi(_) => post == pre,
        FilterType::Context(_) => post == pre,
    }
}

/// The name a filter is reported under when it rejects a message.
pub open spec fn filter_label(f: FilterType) -> Seq<char> {
    match f {
        FilterType::Incoming(_) => "Incoming"@,
        FilterType::Counter(_) => "Counter"@,
        FilterType::Text(_) => "Text"@,
        FilterType::Video(_) => "Video"@,
        FilterType::Photo(_) => "Photo"@,
        FilterType::Animation(_) => "Animation"@,
        FilterType::Document(_) => "Document"@,
        FilterType::AnyFile(_) => "AnyFile"@,
        FilterType::FileSize(_) => "FileSize"@,
        FilterType::Duration(_) => "Duration"@,
        FilterType::TextLength(_) => "TextLength"@,
        FilterType::Regexp(_) => "Regexp"@,
        FilterType::WhiteList(_) => "WhiteList"@,
        FilterType::BlackList(_) => "BlackList"@,
        FilterType::Unique(_) => "Unique"@,
        FilterType::OpenAi(_) => "OpenAi"@,
        FilterType::Context(_) => "Context"@,
    }
}

/// Whether a filter was built as its configuration asks: the right
/// variant, holding the configured settings. Of a dedup filter nothing
/// more is known, as its store is opened from disk.
pub open spec fn filter_from_conf(conf: FilterConf, f: FilterType) -> bool {
    match conf {
        FilterConf::Incoming => f == FilterType::Incoming(Incoming),
        FilterConf::Text => f == FilterType::Text(MessageType::Text),
        FilterConf::Video => f == FilterType::Video(MessageType::Video),
        FilterConf::Photo => f == FilterType::Photo(MessageType::Photo),
        FilterConf::Animation => f == FilterType::Animation(MessageType::Animation),
        FilterConf::Document => f == FilterType::Document(MessageType::Document),
        FilterConf::AnyFile => f == FilterType::AnyFile(MessageType::AnyFile),
        FilterConf::Counter { count } => f == FilterType::Counter(
            Counter { counter: count, count },
        ),
        FilterConf::Duration { duration, op } => match f {
            FilterType::Duration(d) => d.duration == duration && d.op@ == op@,
            _ => false,
        },
        FilterConf::TextLength { len, op } => match f {
            FilterType::TextLength(t) => t.len == len && t.op@ == op@,
            _ => false,
        },
        FilterConf::FileSize { size, op } => match f {
            FilterType::FileSize(s) => s.size == size && s.op@ == op@,
            _ => false,
        },
        FilterConf::Regexp { exp } => match f {
            FilterType::Regexp(r) => match r.exp {
                Some(e) => e@ == exp@,
                None => false,
            },
            _ => false,
        },
        FilterConf::WhiteList { words } => match f {
            FilterType::WhiteList(w) => w.list_type is WhiteList && w.words@ == words@,
            _ => false,
        },
        FilterConf::BlackList { words } => match f {
            FilterType::BlackList(w) => w.list_type is BlackList && w.words@ == words@,
            _ => false,
        },
        FilterConf::Unique => f is Unique,
        FilterConf::OpenAi { model, context, guidelines } => match f {
            FilterType::OpenAi(o) => o.model@ == model@ && o.context@ == context@ && o.guidelines@
                == guidelines@,
            _ => false,
        },
    }
}

impl FilterType {
    /// One invocation of the filter on a message.
    pub fn filter<M: ModerationService>(&mut self, data: &DataHub, moderator: &mut M) -> (r:
        FilterResult)
        ensures
            filter_step(*old(self), *final(self), data.input, r is Ok),
    {
        match self {
            FilterType::Incoming(f) => f.filter(data),
            FilterType::Counter(f) => f.filter(data),
            FilterType::Text(f) => f.filter(data),
            FilterType::Video(f) => f.filter(data),
            FilterType::Photo(f) => f.filter(data),
            FilterType::Animation(f) => f.filter(data),
            FilterType::Document(f) => f.filter(data),
            FilterType::AnyFile(f) => f.filter(data),
            FilterType::FileSize(f) => f.filter(data),
            FilterType::Duration(f) => f.filter(data),
            FilterType::TextLength(f) => f.filter(data),
            FilterType::Regexp(f) => f.filter(data),
            FilterType::WhiteList(f) => f.filter(data),
            FilterType::BlackList(f) => f.filter(data),
            FilterType::Unique(f) => f.filter(data),
            FilterType::OpenAi(f) => f.filter(data, moderator),
            FilterType::Context(f) => f.filter(data, moderator),
        }
    }

    /// The filter's name, for diagnostics.
    pub fn label(&self) -> (r: String)
        ensures
            r@ == filter_label(*self),
    {
        match self {
            FilterType::Incoming(_) => "Incoming".to_owned(),
            FilterType::Counter(_) => "Counter".to_owned(),
            FilterType::Text(_) => "Text".to_owned(),
            FilterType::Video(_) => "Video".to_owned(),
            FilterType::Photo(_) => "Photo".to_owned(),
            FilterType::Animation(_) => "Animation".to_owned(),
            FilterType::Document(_) => "Document".to_owned(),
            FilterType::AnyFile(_) => "AnyFile".to_owned(),
            FilterType::FileSize(_) => "FileSize".to_owned(),
            FilterType::Duration(_) => "Duration".to_owned(),
            FilterType::TextLength(_) => "TextLength".to_owned(),
            FilterType::Regexp(_) => "Regexp".to_owned(),
            FilterType::WhiteList(_) => "WhiteList".to_owned(),
            FilterType::BlackList(_) => "BlackList".to_owned(),
            FilterType::Unique(_) => "Unique".to_owned(),
            FilterType::OpenAi(_) => "OpenAi".to_owned(),
            FilterType::Context(_) => "Context".to_owned(),
        }
    }

    /// Build the filter a configuration entry asks for. A dedup filter
    /// opens the store persisted under the default path.
    pub fn from(conf: FilterConf) -> (r: FilterType)
        ensures
            filter_from_conf(conf, r),
    {
        match conf {
            FilterConf::Incoming => FilterType::Incoming(Incoming),
            FilterConf::Text => FilterType::Text(MessageType::Text),
            FilterConf::Video => FilterType::Video(MessageType::Video),
            FilterConf::Photo => FilterType::Photo(MessageType::Photo),
            FilterConf::Animation => FilterType::Animation(MessageType::Animation),
            FilterConf::Document => FilterType::Document(MessageType::Document),
            FilterConf::AnyFile => FilterType::AnyFile(MessageType::AnyFile),
            FilterConf::Counter { count } => FilterType::Counter(
                Counter::builder().count(count).build(),
            ),
            FilterConf::Duration { duration, op } => FilterType::Duration(
                Duration::builder().duration(duration).operator(op).build(),
            ),
            FilterConf::TextLength { len, op } => FilterType::TextLength(
                TextLength::builder().length(len).operator(op).build(),
            ),
            FilterConf::FileSize { size, op } => FilterType::FileSize(
                FileSize::builder().size(size).operator(op).build(),
            ),
            FilterConf::Regexp { exp } => FilterType::Regexp(
                Regexp::builder().expression(exp).build(),
            ),
            FilterConf::WhiteList { words } => FilterType::WhiteList(
                WordList::builder().words(words).list_type(WordListType::WhiteList).build(),
            ),
            FilterConf::BlackList { words } => FilterType::BlackList(
                WordList::builder().words(words).list_type(WordListType::BlackList).build(),
            ),
            FilterConf::Unique => FilterType::Unique(
                Unique::new(store_open("storage/key-value.db")),
            ),
            FilterConf::OpenAi { model, context, guidelines } => FilterType::OpenAi(
                OpenAi::builder().model(model).context(context).guidelines(guidelines).build(),
            ),
        }
    }
}

} // verus!
