//! The closed set of pipes, their meaning as a function over the output,
//! and their construction from configuration.

use vstd::prelude::*;

use crate::config::PipeConf;
use crate::data::DataHub;
use crate::message::{opt_out_view, InboundMessage, OutView};
use crate::pipes::format::{format_apply, Format};
use crate::pipes::replace::{replace_apply, Replace};
use crate::pipes::replace_regexp::{replace_regexp_apply, ReplaceRegexp};
use crate::pipes::statics::{static_photo_apply, StaticPhoto, StaticText};
use crate::pipes::transform::{transform_apply, Transform};

verus! {

/// Every pipe the core knows.
pub enum PipeType {
    /// Transform the inbound message into the outbound skeleton.
    Transform(Transform),
    /// Overwrite the output's text or caption.
    StaticText(StaticText),
    /// Replace the whole output with a photo from a local file.
    StaticPhoto(StaticPhoto),
    /// Replace literal occurrences of search terms.
    Replace(Replace),
    /// Replace matches of a regular expression.
    ReplaceRegexp(ReplaceRegexp),
    /// Render a template around the output's text.
    Format(Format),
}

/// What one pipe leaves as output, as a function of the inbound message
/// and the output so far. A pipe never rejects: where it cannot act it
/// leaves the output alone.
pub open spec fn pipe_apply(p: PipeType, m: InboundMessage, cur: Option<OutView>) -> Option<
    OutView,
> {
    match p {
        PipeType::Transform(_) => transform_apply(m, cur),
        PipeType::StaticText(st) => crate::helpers::spec_set_text(cur, st.text@),
        PipeType::StaticPhoto(sp) => static_photo_apply(sp.path@, cur),
        PipeType::Replace(r) => replace_apply(r, cur),
        PipeType::ReplaceRegexp(rr) => replace_regexp_apply(rr, cur),
        PipeType::Format(f) => format_apply(f, cur),
    }
}

/// What an ordered pipe chain leaves as output, each pipe observing the
/// cumulative output of the pipes before it.
pub open spec fn pipes_result(ps: Seq<PipeType>, m: InboundMessage, cur: Option<OutView>) -> Option<
    OutView,
>
    decreases ps.len(),
{
    if ps.len() == 0 {
        cur
    } else {
        pipes_result(ps.skip(1), m, pipe_apply(ps[0], m, cur))
    }
}

/// Whether a pipe was built as its configuration asks: the right variant,
/// holding the configured settings.
pub open spec fn pipe_from_conf(conf: PipeConf, p: PipeType) -> bool {
    match conf {
        PipeConf::Transform => p == PipeType::Transform(Transform),
        PipeConf::StaticText { text } => match p {
            PipeType::StaticText(st) => st.text@ == text@,
            _ => false,
        },
        PipeConf::StaticPhoto { path } => match p {
            PipeType::StaticPhoto(sp) => sp.path@ == path@,
            _ => false,
        },
        PipeConf::Replace { search, replace } => match p {
            PipeType::Replace(r) => r.search@ == search@ && r.replace@ == replace@,
            _ => false,
        },
        PipeConf::ReplaceRegexp { search, replace, all } => match p {
            PipeType::ReplaceRegexp(rr) => rr.search == Some(search) && rr.replace@ == replace@
                && rr.all == all,
            _ => false,
        },
        PipeConf::Format { template } => match p {
            PipeType::Format(f) => f.template@ == template@,
            _ => false,
        },
    }
}

impl PipeType {
    /// One invocation of the pipe on the processing context.
    pub fn handle(&self, data: &mut DataHub)
        ensures
            final(data).input == old(data).input,
            opt_out_view(final(data).output) == pipe_apply(
                *self,
                old(data).input,
                opt_out_view(old(data).output),
            ),
    {
        match self {
            PipeType::Transform(p) => p.handle(data),
            PipeType::StaticText(p) => p.handle(data),
            PipeType::StaticPhoto(p) => p.handle(data),
            PipeType::Replace(p) => p.handle(data),
            PipeType::ReplaceRegexp(p) => p.handle(data),
            PipeType::Format(p) => p.handle(data),
        }
    }

    /// Build the pipe a configuration entry asks for.
    pub fn from(conf: PipeConf) -> (r: PipeType)
        ensures
            pipe_from_conf(conf, r),
    {
        match conf {
            PipeConf::Transform => PipeType::Transform(Transform),
            PipeConf::StaticText { text } => PipeType::StaticText(
                StaticText::builder().text(text).build(),
            ),
            PipeConf::StaticPhoto { path } => PipeType::StaticPhoto(
                StaticPhoto::builder().path(path).build(),
            ),
            PipeConf::Replace { search, replace } => PipeType::Replace(
                Replace::builder().search(search).replace(replace).build(),
            ),
            PipeConf::ReplaceRegexp { search, replace, all } => PipeType::ReplaceRegexp(
                ReplaceRegexp::builder().search(search).replace(replace).all(all).build(),
            ),
            PipeConf::Format { template } => PipeType::Format(
                Format::builder().template(template).build(),
            ),
        }
    }
}

} // verus!
