//! One named rule-set: an ordered filter chain followed by an ordered
//! pipe chain, and its execution against one message.

use vstd::prelude::*;

use crate::config::PipelineConf;
use crate::data::DataHub;
use crate::filter::{filter_from_conf, filter_label, filter_step, FilterType};
use crate::filters::incoming::Incoming;
use crate::message::{opt_out_view, InboundMessage, OutboundContent};
use crate::moderation::ModerationService;
use crate::pipe::{pipe_from_conf, pipes_result, PipeType};
use crate::pipes::transform::Transform;

verus! {

/// What a pipeline yields for one message: the outbound payload, or the
/// error naming what went wrong.
pub type PipelineResult = Result<OutboundContent, PipelineError>;

/// Why a pipeline yielded no payload: a named filter rejected the
/// message, or every filter passed but no pipe produced output (the
/// error carries the pipeline's name).
pub enum PipelineError {
    FilterError(String),
    OutputError(String),
}

/// A named rule-set: filters run first, in order, short-circuiting on the
/// first rejection; then the pipes run, in order, building the output.
pub struct Pipeline {
    pub name: String,
    pub filters: Vec<FilterType>,
    pub pipes: Vec<PipeType>,
}

/// Every filter stepped on the message and passed.
pub open spec fn chain_passed(
    pre: Seq<FilterType>,
    post: Seq<FilterType>,
    m: InboundMessage,
) -> bool {
    &&& post.len() == pre.len()
    &&& forall|i: int| 0 <= i < pre.len() ==> filter_step(pre[i], #[trigger] post[i], m, true)
}

/// The filters before `j` stepped and passed, the filter at `j` stepped
/// and rejected, and the rest were never invoked.
pub open spec fn chain_rejected_at(
    pre: Seq<FilterType>,
    post: Seq<FilterType>,
    m: InboundMessage,
    j: int,
) -> bool {
    &&& post.len() == pre.len()
    &&& 0 <= j < pre.len()
    &&& forall|i: int| 0 <= i < j ==> filter_step(pre[i], #[trigger] post[i], m, true)
    &&& filter_step(pre[j], post[j], m, false)
    &&& forall|i: int| j < i < pre.len() ==> #[trigger] post[i] == pre[i]
}

/// How one pipeline run relates the pipeline's state before and after
/// to its result: the name, the pipes and the number of filters are
/// kept; a payload comes exactly when every filter stepped and passed
/// and the pipe chain built it; a filter rejection comes from a
/// rejecting step and names that filter; the no-output error comes when
/// all filters passed but the pipe chain built nothing, and names the
/// pipeline.
pub open spec fn pipeline_outcome(
    pre: Pipeline,
    post: Pipeline,
    m: InboundMessage,
    r: PipelineResult,
) -> bool {
    &&& post.name == pre.name
    &&& post.pipes == pre.pipes
    &&& post.filters@.len() == pre.filters@.len()
    &&& match r {
        Result::Ok(out) => chain_passed(pre.filters@, post.filters@, m) && pipes_result(
            pre.pipes@,
            m,
            None,
        ) == Some(out@),
        Result::Err(e) => match e {
            PipelineError::FilterError(label) => exists|j: int|
                #![trigger pre.filters@[j]]
                chain_rejected_at(pre.filters@, post.filters@, m, j) && label@ == filter_label(
                    pre.filters@[j],
                ),
            PipelineError::OutputError(name) => chain_passed(pre.filters@, post.filters@, m)
                && pipes_result(pre.pipes@, m, None) is None && name@ == pre.name@,
        },
    }
}

/// Whether a pipeline was built as its definition asks: the two built-in
/// defaults (the incoming filter and the passthrough pipe) followed by
/// the configured filters and pipes, in order.
pub open spec fn pipeline_from_conf(conf: PipelineConf, p: Pipeline) -> bool {
    &&& p.name@ == conf.name@
    &&& p.filters@.len() == 1 + conf.filters@.len()
    &&& p.filters@[0] == FilterType::Incoming(Incoming)
    &&& forall|i: int|
        0 <= i < conf.filters@.len() ==> filter_from_conf(
            #[trigger] conf.filters@[i],
            p.filters@[i + 1],
        )
    &&& p.pipes@.len() == 1 + conf.pipes@.len()
    &&& p.pipes@[0] == PipeType::Transform(Transform)
    &&& forall|i: int|
        0 <= i < conf.pipes@.len() ==> pipe_from_conf(#[trigger] conf.pipes@[i], p.pipes@[i + 1])
}

impl Default for Pipeline {
    /// The built-in default pipeline: only the incoming filter and the
    /// passthrough pipe, under an empty name.
    fn default() -> (r: Self)
        ensures
            r.name@ == Seq::<char>::empty(),
            r.filters@ =~= seq![FilterType::Incoming(Incoming)],
            r.pipes@ =~= seq![PipeType::Transform(Transform)],
    {
        let mut filters: Vec<FilterType> = Vec::new();
        filters.push(FilterType::Incoming(Incoming));
        let mut pipes: Vec<PipeType> = Vec::new();
        pipes.push(PipeType::Transform(Transform));
        Pipeline { name: String::new(), filters, pipes }
    }
}

impl Pipeline {
    /// Build the pipeline a definition asks for: the two built-in
    /// defaults, then the configured filters and pipes.
    pub fn from(conf: PipelineConf) -> (r: Pipeline)
        ensures
            pipeline_from_conf(conf, r),
    {
        let PipelineConf { name, route: _, filters: mut filter_confs, pipes: mut pipe_confs } =
            conf;
        let ghost orig_filters = filter_confs@;
        let ghost orig_pipes = pipe_confs@;

        let mut filters: Vec<FilterType> = Vec::new();
        filters.push(FilterType::Incoming(Incoming));
        while filter_confs.len() > 0
            invariant
                filter_confs@.len() <= orig_filters.len(),
                filter_confs@ =~= orig_filters.skip(
                    orig_filters.len() - filter_confs@.len(),
                ),
                filters@.len() == 1 + orig_filters.len() - filter_confs@.len(),
                filters@[0] == FilterType::Incoming(Incoming),
                forall|i: int|
                    0 <= i < orig_filters.len() - filter_confs@.len() ==> filter_from_conf(
                        #[trigger] orig_filters[i],
                        filters@[i + 1],
                    ),
            decreases filter_confs@.len(),
        {
            let ghost k = orig_filters.len() - filter_confs@.len();
            let fc = filter_confs.remove(0);
            proof {
                assert(fc == orig_filters[k]);
                assert(filter_confs@ =~= orig_filters.skip(k + 1));
            }
            filters.push(FilterType::from(fc));
        }

        let mut pipes: Vec<PipeType> = Vec::new();
        pipes.push(PipeType::Transform(Transform));
        while pipe_confs.len() > 0
            invariant
                pipe_confs@.len() <= orig_pipes.len(),
                pipe_confs@ =~= orig_pipes.skip(orig_pipes.len() - pipe_confs@.len()),
                pipes@.len() == 1 + orig_pipes.len() - pipe_confs@.len(),
                pipes@[0] == PipeType::Transform(Transform),
                forall|i: int|
                    0 <= i < orig_pipes.len() - pipe_confs@.len() ==> pipe_from_conf(
                        #[trigger] orig_pipes[i],
                        pipes@[i + 1],
                    ),
            decreases pipe_confs@.len(),
        {
            let ghost k = orig_pipes.len() - pipe_confs@.len();
            let pc = pipe_confs.remove(0);
            proof {
                assert(pc == orig_pipes[k]);
                assert(pipe_confs@ =~= orig_pipes.skip(k + 1));
            }
            pipes.push(PipeType::from(pc));
        }

        Pipeline { name, filters, pipes }
    }

    /// Run the pipeline against one message: the filters in order,
    /// stopping at the first rejection (the error names the rejecting
    /// filter); then, when all passed, the pipes in order; an absent
    /// output after all pipes is an error naming the pipeline.
    pub fn handle<M: ModerationService>(&mut self, input: InboundMessage, moderator: &mut M) -> (r:
        PipelineResult)
        ensures
            pipeline_outcome(*old(self), *final(self), input, r),
    {
        let mut data = DataHub::new(input);

        let n = self.filters.len();
        let mut i: usize = 0;
        while i < n
            invariant
                n == self.filters@.len(),
                self.filters@.len() == old(self).filters@.len(),
                self.name == old(self).name,
                self.pipes == old(self).pipes,
                data.input == input,
                data.output is None,
                0 <= i <= n,
                forall|k: int|
                    0 <= k < i ==> filter_step(
                        old(self).filters@[k],
                        #[trigger] self.filters@[k],
                        input,
                        true,
                    ),
                forall|k: int| i <= k < n ==> #[trigger] self.filters@[k] == old(self).filters@[k],
            decreases n - i,
        {
            let f = &mut self.filters[i];
            let verdict = f.filter(&data, moderator);
            if verdict.is_err() {
                let label = self.filters[i].label();
                return Err(PipelineError::FilterError(label));
            }
            i = i + 1;
        }

        proof {
            assert(self.pipes@.skip(0) =~= self.pipes@);
        }
        let mut j: usize = 0;
        while j < self.pipes.len()
            invariant
                self.filters@.len() == old(self).filters@.len(),
                self.name == old(self).name,
                self.pipes == old(self).pipes,
                data.input == input,
                0 <= j <= self.pipes@.len(),
                chain_passed(old(self).filters@, self.filters@, input),
                pipes_result(old(self).pipes@, input, None) == pipes_result(
                    self.pipes@.skip(j as int),
                    input,
                    opt_out_view(data.output),
                ),
            decreases self.pipes@.len() - j,
        {
            let p = &self.pipes[j];
            p.handle(&mut data);
            proof {
                assert(self.pipes@.skip(j as int).skip(1) =~= self.pipes@.skip(j + 1));
                assert(self.pipes@.skip(j as int)[0] == self.pipes@[j as int]);
            }
            j = j + 1;
        }
        proof {
            assert(self.pipes@.skip(self.pipes@.len() as int) =~= Seq::<PipeType>::empty());
        }

        match data.output {
            Some(out) => Ok(out),
            None => Err(PipelineError::OutputError(self.name.clone())),
        }
    }
}

} // verus!
