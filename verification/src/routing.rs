//! The routing index: the source-to-destinations mapping and the
//! route-keyed pipeline collection with its wildcard priority lookup,
//! and the dispatcher that runs them for one message.

use vstd::prelude::*;

use crate::config::{IdMapConf, PipelineConf};
use crate::message::InboundMessage;
use crate::moderation::ModerationService;
use crate::pipe::pipes_result;
use crate::pipeline::{pipeline_from_conf, pipeline_outcome, Pipeline, PipelineResult};

verus! {

/// A route key: source and destination, an absent side matching any.
pub type PipelineKey = (Option<i64>, Option<i64>);

/// The route key a pipeline definition is registered under.
pub open spec fn route_key_of(conf: PipelineConf) -> PipelineKey {
    (conf.route.source, conf.route.destination)
}

// ---------------------------------------------------------------------
// The source-to-destinations mapping.
// ---------------------------------------------------------------------

/// The mapping from a source channel to its destination channels. Held
/// as entries in insertion order; a later entry for the same source
/// overrides an earlier one, as the view says.
pub struct MappingsIndex {
    pub entries: Vec<(i64, Vec<i64>)>,
}

/// The map an entry list denotes: entries inserted in order, later ones
/// overriding earlier ones.
pub open spec fn mappings_map(s: Seq<(i64, Vec<i64>)>) -> Map<i64, Seq<i64>>
    decreases s.len(),
{
    if s.len() == 0 {
        Map::empty()
    } else {
        mappings_map(s.drop_last()).insert(s.last().0, s.last().1@)
    }
}

impl View for MappingsIndex {
    type V = Map<i64, Seq<i64>>;

    open spec fn view(&self) -> Map<i64, Seq<i64>> {
        mappings_map(self.entries@)
    }
}

proof fn lemma_mappings_map_get(s: Seq<(i64, Vec<i64>)>, j: int)
    requires
        0 <= j < s.len(),
        forall|k: int| j < k < s.len() ==> (#[trigger] s[k]).0 != s[j].0,
    ensures
        mappings_map(s).contains_key(s[j].0),
        mappings_map(s)[s[j].0] == s[j].1@,
    decreases s.len(),
{
    if j < s.len() - 1 {
        lemma_mappings_map_get(s.drop_last(), j);
    }
}

proof fn lemma_mappings_map_absent(s: Seq<(i64, Vec<i64>)>, key: i64)
    requires
        forall|k: int| 0 <= k < s.len() ==> (#[trigger] s[k]).0 != key,
    ensures
        !mappings_map(s).contains_key(key),
    decreases s.len(),
{
    if s.len() > 0 {
        lemma_mappings_map_absent(s.drop_last(), key);
    }
}

/// The map the configured mapping entries denote: each source mapped to
/// its destinations, or to itself alone when it lists none.
pub open spec fn mappings_from_confs(confs: Seq<IdMapConf>) -> Map<i64, Seq<i64>>
    decreases confs.len(),
{
    if confs.len() == 0 {
        Map::empty()
    } else {
        mappings_from_confs(confs.drop_last()).insert(
            confs.last().source,
            if confs.last().destinations@.len() == 0 {
                seq![confs.last().source]
            } else {
                confs.last().destinations@
            },
        )
    }
}

/// For a mapping entry with an empty destination list (and no later
/// entry overriding the same source), resolution yields exactly the
/// single-element list holding the source itself.
pub proof fn lemma_empty_destinations_self_forward(confs: Seq<IdMapConf>, j: int)
    requires
        0 <= j < confs.len(),
        confs[j].destinations@.len() == 0,
        forall|k: int| j < k < confs.len() ==> (#[trigger] confs[k]).source != confs[j].source,
    ensures
        mappings_from_confs(confs).contains_key(confs[j].source),
        mappings_from_confs(confs)[confs[j].source] == seq![confs[j].source],
    decreases confs.len(),
{
    if j < confs.len() - 1 {
        lemma_empty_destinations_self_forward(confs.drop_last(), j);
    }
}

impl MappingsIndex {
    /// Build the mapping the configuration asks for: each source mapped
    /// to its destinations, or to itself alone when it lists none.
    pub fn from(maps_conf: Vec<IdMapConf>) -> (r: MappingsIndex)
        ensures
            r@ == mappings_from_confs(maps_conf@),
    {
        let mut confs = maps_conf;
        let ghost orig = confs@;
        let mut entries: Vec<(i64, Vec<i64>)> = Vec::new();
        while confs.len() > 0
            invariant
                confs@.len() <= orig.len(),
                confs@ =~= orig.skip(orig.len() - confs@.len()),
                mappings_map(entries@) == mappings_from_confs(
                    orig.take(orig.len() - confs@.len()),
                ),
            decreases confs@.len(),
        {
            let ghost k = orig.len() - confs@.len();
            let id_map = confs.remove(0);
            proof {
                assert(id_map == orig[k]);
                assert(confs@ =~= orig.skip(k + 1));
            }
            let destinations = if id_map.destinations.len() == 0 {
                let mut self_only: Vec<i64> = Vec::new();
                self_only.push(id_map.source);
                self_only
            } else {
                id_map.destinations
            };
            proof {
                if orig[k].destinations@.len() == 0 {
                    assert(destinations@ =~= seq![orig[k].source]);
                }
            }
            let ghost pre_entries = entries@;
            entries.push((id_map.source, destinations));
            proof {
                assert(entries@.drop_last() =~= pre_entries);
                assert(orig.take(k + 1).drop_last() =~= orig.take(k));
            }
        }
        proof {
            assert(orig.take(orig.len() as int) =~= orig);
        }
        MappingsIndex { entries }
    }

    /// The destination channels of a source, or nothing when the source
    /// is unmapped.
    pub fn get(&self, source: &i64) -> (r: Option<&Vec<i64>>)
        ensures
            match r {
                Some(v) => self@.contains_key(*source) && v@ == self@[*source],
                None => !self@.contains_key(*source),
            },
    {
        let mut i: usize = self.entries.len();
        while i > 0
            invariant
                i <= self.entries@.len(),
                forall|k: int|
                    i <= k < self.entries@.len() ==> (#[trigger] self.entries@[k]).0 != *source,
            decreases i,
        {
            i = i - 1;
            if self.entries[i].0 == *source {
                proof {
                    lemma_mappings_map_get(self.entries@, i as int);
                }
                return Some(&self.entries[i].1);
            }
        }
        proof {
            lemma_mappings_map_absent(self.entries@, *source);
        }
        None
    }
}

// ---------------------------------------------------------------------
// The route-keyed pipeline collection.
// ---------------------------------------------------------------------

/// The pipelines, grouped under their route keys, in registration order
/// within each key.
pub struct PipelinesIndex {
    pub entries: Vec<(PipelineKey, Vec<Pipeline>)>,
}

/// The map an entry list denotes.
pub open spec fn pipelines_map(s: Seq<(PipelineKey, Vec<Pipeline>)>) -> Map<
    PipelineKey,
    Seq<Pipeline>,
>
    decreases s.len(),
{
    if s.len() == 0 {
        Map::empty()
    } else {
        pipelines_map(s.drop_last()).insert(s.last().0, s.last().1@)
    }
}

impl View for PipelinesIndex {
    type V = Map<PipelineKey, Seq<Pipeline>>;

    open spec fn view(&self) -> Map<PipelineKey, Seq<Pipeline>> {
        pipelines_map(self.entries@)
    }
}

proof fn lemma_pipelines_map_get(s: Seq<(PipelineKey, Vec<Pipeline>)>, j: int)
    requires
        0 <= j < s.len(),
        forall|k: int| j < k < s.len() ==> (#[trigger] s[k]).0 != s[j].0,
    ensures
        pipelines_map(s).contains_key(s[j].0),
        pipelines_map(s)[s[j].0] == s[j].1@,
    decreases s.len(),
{
    if j < s.len() - 1 {
        lemma_pipelines_map_get(s.drop_last(), j);
    }
}

proof fn lemma_pipelines_map_absent(s: Seq<(PipelineKey, Vec<Pipeline>)>, key: PipelineKey)
    requires
        forall|k: int| 0 <= k < s.len() ==> (#[trigger] s[k]).0 != key,
    ensures
        !pipelines_map(s).contains_key(key),
    decreases s.len(),
{
    if s.len() > 0 {
        lemma_pipelines_map_absent(s.drop_last(), key);
    }
}

/// Updating one entry's pipeline list (under unique keys) updates the
/// denoted map at that key alone.
proof fn lemma_pipelines_map_update(s: Seq<(PipelineKey, Vec<Pipeline>)>, j: int, v: Vec<Pipeline>)
    requires
        0 <= j < s.len(),
        forall|k: int| j < k < s.len() ==> (#[trigger] s[k]).0 != s[j].0,
    ensures
        pipelines_map(s.update(j, (s[j].0, v))) == pipelines_map(s).insert(s[j].0, v@),
    decreases s.len(),
{
    let s2 = s.update(j, (s[j].0, v));
    if j == s.len() - 1 {
        assert(s2.drop_last() =~= s.drop_last());
        assert(pipelines_map(s2) =~= pipelines_map(s).insert(s[j].0, v@));
    } else {
        lemma_pipelines_map_update(s.drop_last(), j, v);
        assert(s2.drop_last() =~= s.drop_last().update(j, (s[j].0, v)));
        assert(s2.last() == s.last());
        assert(pipelines_map(s2) =~= pipelines_map(s).insert(s[j].0, v@));
    }
}

/// Exactly the candidate key the fixed priority order selects: the full
/// route first, then wildcard source, then wildcard destination, then
/// the both-wildcard key.
pub open spec fn spec_find_key(
    m: Map<PipelineKey, Seq<Pipeline>>,
    source: i64,
    dest: i64,
) -> Option<PipelineKey> {
    if m.contains_key((Some(source), Some(dest))) {
        Some((Some(source), Some(dest)))
    } else if m.contains_key((None, Some(dest))) {
        Some((None, Some(dest)))
    } else if m.contains_key((Some(source), None)) {
        Some((Some(source), None))
    } else if m.contains_key((Some(0i64), Some(0i64))) {
        Some((Some(0i64), Some(0i64)))
    } else {
        None
    }
}

/// The pipeline list the priority lookup resolves to, if any key in the
/// four-step chain is registered.
pub open spec fn spec_find(m: Map<PipelineKey, Seq<Pipeline>>, source: i64, dest: i64) -> Option<
    Seq<Pipeline>,
> {
    match spec_find_key(m, source, dest) {
        Some(k) => Some(m[k]),
        None => None,
    }
}

/// The lookup priority is deterministic: a pipeline list registered
/// under the full route is always preferred over one under the
/// wildcard-source key, which is preferred over one under the
/// wildcard-destination key, which is preferred over the both-wildcard
/// key; only when all four are absent does resolution fail.
pub proof fn lemma_lookup_priority(m: Map<PipelineKey, Seq<Pipeline>>, source: i64, dest: i64)
    ensures
        m.contains_key((Some(source), Some(dest))) ==> spec_find(m, source, dest) == Some(
            m[(Some(source), Some(dest))],
        ),
        !m.contains_key((Some(source), Some(dest))) && m.contains_key((None, Some(dest)))
            ==> spec_find(m, source, dest) == Some(m[(None, Some(dest))]),
        !m.contains_key((Some(source), Some(dest))) && !m.contains_key((None, Some(dest)))
            && m.contains_key((Some(source), None)) ==> spec_find(m, source, dest) == Some(
            m[(Some(source), None)],
        ),
        !m.contains_key((Some(source), Some(dest))) && !m.contains_key((None, Some(dest)))
            && !m.contains_key((Some(source), None)) && m.contains_key((Some(0i64), Some(0i64)))
            ==> spec_find(m, source, dest) == Some(m[(Some(0i64), Some(0i64))]),
        !m.contains_key((Some(source), Some(dest))) && !m.contains_key((None, Some(dest)))
            && !m.contains_key((Some(source), None)) && !m.contains_key((Some(0i64), Some(0i64)))
            ==> spec_find(m, source, dest) is None,
{
}

/// Whether two route keys are the same.
fn key_eq(a: &PipelineKey, b: &PipelineKey) -> (r: bool)
    ensures
        r == (*a == *b),
{
    let sources_match = match (a.0, b.0) {
        (Some(x), Some(y)) => x == y,
        (None, None) => true,
        _ => false,
    };
    let dests_match = match (a.1, b.1) {
        (Some(x), Some(y)) => x == y,
        (None, None) => true,
        _ => false,
    };
    sources_match && dests_match
}

impl PipelinesIndex {
    /// The entry keys are unique, so that updating one entry in place
    /// touches the denoted map at that key alone.
    pub open spec fn wf(&self) -> bool {
        forall|a: int, b: int|
            0 <= a < b < self.entries@.len() ==> (#[trigger] self.entries@[a]).0 != (
            #[trigger] self.entries@[b]).0
    }

    /// The position of the entry registered under a key, if any.
    fn position_of_key(&self, key: &PipelineKey) -> (r: Option<usize>)
        ensures
            match r {
                Some(p) => p < self.entries@.len() && self.entries@[p as int].0 == *key && (
                forall|k: int|
                    p < k < self.entries@.len() ==> (#[trigger] self.entries@[k]).0 != *key)
                    && self@.contains_key(*key) && self@[*key] == self.entries@[p as int].1@,
                None => !self@.contains_key(*key) && forall|k: int|
                    0 <= k < self.entries@.len() ==> (#[trigger] self.entries@[k]).0 != *key,
            },
    {
        let mut i: usize = self.entries.len();
        while i > 0
            invariant
                i <= self.entries@.len(),
                forall|k: int|
                    i <= k < self.entries@.len() ==> (#[trigger] self.entries@[k]).0 != *key,
            decreases i,
        {
            i = i - 1;
            if key_eq(&self.entries[i].0, key) {
                proof {
                    lemma_pipelines_map_get(self.entries@, i as int);
                }
                return Some(i);
            }
        }
        proof {
            lemma_pipelines_map_absent(self.entries@, *key);
        }
        None
    }

    /// The pipeline list registered under a key, if any.
    fn get_entry(&self, key: &PipelineKey) -> (r: Option<&Vec<Pipeline>>)
        ensures
            match r {
                Some(v) => self@.contains_key(*key) && v@ == self@[*key],
                None => !self@.contains_key(*key),
            },
    {
        match self.position_of_key(key) {
            Some(p) => Some(&self.entries[p].1),
            None => None,
        }
    }

    /// Resolve the pipeline list for a source and destination by the
    /// fixed four-step priority chain: the full route, then wildcard
    /// source, then wildcard destination, then the both-wildcard key;
    /// an error when all four are absent.
    pub fn find(&self, source: &i64, dest: &i64) -> (r: Result<&Vec<Pipeline>, ()>)
        ensures
            match r {
                Ok(v) => spec_find(self@, *source, *dest) == Some(v@),
                Err(()) => spec_find(self@, *source, *dest) is None,
            },
    {
        if let Some(v) = self.get_entry(&(Some(*source), Some(*dest))) {
            return Ok(v);
        }
        if let Some(v) = self.get_entry(&(None, Some(*dest))) {
            return Ok(v);
        }
        if let Some(v) = self.get_entry(&(Some(*source), None)) {
            return Ok(v);
        }
        if let Some(v) = self.get_entry(&(Some(0), Some(0))) {
            return Ok(v);
        }
        Err(())
    }
}

// ---------------------------------------------------------------------
// Construction of the pipeline index from configuration.
// ---------------------------------------------------------------------

/// The definitions registered under one key, in configuration order.
pub open spec fn confs_with_key(confs: Seq<PipelineConf>, k: PipelineKey) -> Seq<PipelineConf> {
    confs.filter(|c: PipelineConf| route_key_of(c) == k)
}

/// Whether an index holds, under every key, exactly the pipelines built
/// from the definitions registered under that key, in order.
pub open spec fn index_matches_confs(
    confs: Seq<PipelineConf>,
    m: Map<PipelineKey, Seq<Pipeline>>,
) -> bool {
    &&& forall|k: PipelineKey| #[trigger]
        m.contains_key(k) <==> confs_with_key(confs, k).len() > 0
    &&& forall|k: PipelineKey| #[trigger]
        m.contains_key(k) ==> {
            let cs = confs_with_key(confs, k);
            &&& m[k].len() == cs.len()
            &&& forall|j: int| 0 <= j < cs.len() ==> pipeline_from_conf(cs[j], #[trigger] m[k][j])
        }
}

impl PipelinesIndex {
    /// Build the index the configuration asks for: every definition's
    /// pipeline registered under the definition's route key, keeping
    /// configuration order within each key.
    pub fn from(pipelines_conf: Vec<PipelineConf>) -> (r: PipelinesIndex)
        ensures
            r.wf(),
            index_matches_confs(pipelines_conf@, r@),
    {
        let mut confs = pipelines_conf;
        let ghost orig = confs@;
        let mut index = PipelinesIndex { entries: Vec::new() };
        proof {
            assert(orig.take(0) =~= Seq::<PipelineConf>::empty());
            assert forall|k: PipelineKey| #[trigger]
                index@.contains_key(k) <==> confs_with_key(orig.take(0), k).len() > 0 by {
                reveal(Seq::filter);
            }
        }
        while confs.len() > 0
            invariant
                confs@.len() <= orig.len(),
                confs@ =~= orig.skip(orig.len() - confs@.len()),
                index.wf(),
                index_matches_confs(orig.take(orig.len() - confs@.len()), index@),
            decreases confs@.len(),
        {
            let ghost t = orig.len() - confs@.len();
            let conf = confs.remove(0);
            proof {
                assert(conf == orig[t]);
                assert(confs@ =~= orig.skip(t + 1));
            }
            let key: PipelineKey = (conf.route.source, conf.route.destination);
            let pipeline = Pipeline::from(conf);
            let ghost pre = index@;
            let position = index.position_of_key(&key);
            match position {
                Some(p) => {
                    let ghost pre_entries = index.entries@;
                    let ghost pre_list = index.entries@[p as int].1@;
                    let list = &mut index.entries[p].1;
                    list.push(pipeline);
                    proof {
                        assert(index.entries@ =~= pre_entries.update(
                            p as int,
                            (pre_entries[p as int].0, index.entries@[p as int].1),
                        ));
                        lemma_pipelines_map_update(
                            pre_entries,
                            p as int,
                            index.entries@[p as int].1,
                        );
                        assert(index@ == pre.insert(key, pre_list.push(pipeline)));
                        assert(forall|q: int|
                            0 <= q < index.entries@.len() ==> (#[trigger] index.entries@[q]).0
                                == pre_entries[q].0);
                    }
                },
                None => {
                    let mut list: Vec<Pipeline> = Vec::new();
                    list.push(pipeline);
                    let ghost pre_entries = index.entries@;
                    index.entries.push((key, list));
                    proof {
                        assert(index.entries@.drop_last() =~= pre_entries);
                        assert(index@ == pre.insert(key, seq![pipeline]));
                    }
                },
            }
            proof {
                lemma_index_matches_step(orig, t, pre, index@, key, pipeline);
            }
        }
        proof {
            assert(orig.take(orig.len() as int) =~= orig);
        }
        index
    }
}

/// One construction step keeps the index matching the definitions seen
/// so far: registering the next definition's pipeline under its key
/// extends exactly that key's list.
proof fn lemma_index_matches_step(
    orig: Seq<PipelineConf>,
    t: int,
    pre: Map<PipelineKey, Seq<Pipeline>>,
    post: Map<PipelineKey, Seq<Pipeline>>,
    key: PipelineKey,
    pipeline: Pipeline,
)
    requires
        0 <= t < orig.len(),
        index_matches_confs(orig.take(t), pre),
        key == route_key_of(orig[t]),
        pipeline_from_conf(orig[t], pipeline),
        post == pre.insert(
            key,
            if pre.contains_key(key) {
                pre[key].push(pipeline)
            } else {
                seq![pipeline]
            },
        ),
    ensures
        index_matches_confs(orig.take(t + 1), post),
{
    let prefix = orig.take(t);
    let prefix2 = orig.take(t + 1);
    assert(prefix2.drop_last() =~= prefix);
    assert(prefix2.last() == orig[t]);
    assert forall|k: PipelineKey| #[trigger]
        confs_with_key(prefix2, k) == (if k == key {
            confs_with_key(prefix, k).push(orig[t])
        } else {
            confs_with_key(prefix, k)
        }) by {
        reveal(Seq::filter);
    }
    assert forall|k: PipelineKey| #[trigger]
        post.contains_key(k) <==> confs_with_key(prefix2, k).len() > 0 by {
        if k == key {
        } else {
            assert(post.contains_key(k) <==> pre.contains_key(k));
        }
    }
    assert forall|k: PipelineKey| #[trigger] post.contains_key(k) implies {
        let cs = confs_with_key(prefix2, k);
        &&& post[k].len() == cs.len()
        &&& forall|j: int| 0 <= j < cs.len() ==> pipeline_from_conf(cs[j], #[trigger] post[k][j])
    } by {
        let cs = confs_with_key(prefix2, k);
        if k == key {
            let cs0 = confs_with_key(prefix, k);
            if pre.contains_key(key) {
                assert(post[k] == pre[key].push(pipeline));
                assert(cs == cs0.push(orig[t]));
                assert forall|j: int| 0 <= j < cs.len() implies pipeline_from_conf(
                    cs[j],
                    #[trigger] post[k][j],
                ) by {
                    if j < cs0.len() {
                        assert(pipeline_from_conf(cs0[j], pre[key][j]));
                    }
                }
            } else {
                assert(cs0.len() == 0);
                assert(post[k] == seq![pipeline]);
                assert(cs =~= seq![orig[t]]);
            }
        } else {
            assert(post[k] == pre[k]);
            assert(cs == confs_with_key(prefix, k));
        }
    }
}

// ---------------------------------------------------------------------
// The dispatcher.
// ---------------------------------------------------------------------

/// Whether two pipelines differ at most in their filters' internal
/// state: same name, same pipes, same number of filters.
pub open spec fn pipeline_same_shape(a: Pipeline, b: Pipeline) -> bool {
    &&& b.name == a.name
    &&& b.pipes == a.pipes
    &&& b.filters@.len() == a.filters@.len()
}

/// Whether two index states differ at most in filters' internal state:
/// the same keys, and under each key the same pipelines up to shape.
pub open spec fn index_same_shape(
    a: Map<PipelineKey, Seq<Pipeline>>,
    b: Map<PipelineKey, Seq<Pipeline>>,
) -> bool {
    &&& b.dom() == a.dom()
    &&& forall|k: PipelineKey|
        a.contains_key(k) ==> {
            &&& (#[trigger] b[k]).len() == a[k].len()
            &&& forall|j: int| 0 <= j < a[k].len() ==> pipeline_same_shape(a[k][j], #[trigger] b[k][j])
        }
}

/// What the dispatcher produced for one destination: every pipeline of
/// the resolved list ran, in order, each leaving its result.
pub struct RouteReport {
    pub destination: i64,
    pub results: Vec<PipelineResult>,
}

/// A directly usable corollary of what dispatch owes one destination:
/// the report is tagged with that destination; the resolved pipeline
/// list (or, on a total lookup miss, the default pipeline alone) left
/// one result per pipeline; and every payload produced is exactly what
/// that pipeline's pipe chain builds for the message. Which results a
/// pipeline owes — success included — is stated in full by
/// `dispatch_step` over the states the dispatch trace threads through.
pub open spec fn report_matches(
    old_index: Map<PipelineKey, Seq<Pipeline>>,
    old_default: Pipeline,
    m: InboundMessage,
    dest: i64,
    rep: RouteReport,
) -> bool {
    &&& rep.destination == dest
    &&& match spec_find(old_index, m.chat_id, dest) {
        Some(plist) => rep.results@.len() == plist.len() && forall|j: int|
            0 <= j < plist.len() ==> match #[trigger] rep.results@[j] {
                Ok(out) => pipes_result(plist[j].pipes@, m, None) == Some(out@),
                Err(_) => true,
            },
        None => rep.results@.len() == 1 && match rep.results@[0] {
            Ok(out) => pipes_result(old_default.pipes@, m, None) == Some(out@),
            Err(_) => true,
        },
    }
}

impl PipelinesIndex {
    /// The position of the entry the priority lookup resolves to.
    fn position_for(&self, source: &i64, dest: &i64) -> (r: Option<usize>)
        ensures
            match r {
                Some(p) => p < self.entries@.len() && spec_find_key(self@, *source, *dest) == Some(
                    self.entries@[p as int].0,
                ) && self@[self.entries@[p as int].0] == self.entries@[p as int].1@ && (forall|
                    k: int,
                |
                    p < k < self.entries@.len() ==> (#[trigger] self.entries@[k]).0
                        != self.entries@[p as int].0),
                None => spec_find_key(self@, *source, *dest) is None,
            },
    {
        if let Some(p) = self.position_of_key(&(Some(*source), Some(*dest))) {
            return Some(p);
        }
        if let Some(p) = self.position_of_key(&(None, Some(*dest))) {
            return Some(p);
        }
        if let Some(p) = self.position_of_key(&(Some(*source), None)) {
            return Some(p);
        }
        if let Some(p) = self.position_of_key(&(Some(0), Some(0))) {
            return Some(p);
        }
        None
    }
}

/// Run every pipeline of a list against the message, in order,
/// collecting each pipeline's result; each result relates to its
/// pipeline's state before and after exactly as one pipeline run does.
fn run_pipelines<M: ModerationService>(
    list: &mut Vec<Pipeline>,
    input: &InboundMessage,
    moderator: &mut M,
) -> (r: Vec<PipelineResult>)
    ensures
        final(list)@.len() == old(list)@.len(),
        r@.len() == old(list)@.len(),
        forall|j: int|
            0 <= j < old(list)@.len() ==> pipeline_outcome(
                old(list)@[j],
                final(list)@[j],
                *input,
                #[trigger] r@[j],
            ),
{
    let mut results: Vec<PipelineResult> = Vec::new();
    let n = list.len();
    let mut j: usize = 0;
    while j < n
        invariant
            n == list@.len(),
            list@.len() == old(list)@.len(),
            results@.len() == j,
            0 <= j <= n,
            forall|k: int| j <= k < n ==> #[trigger] list@[k] == old(list)@[k],
            forall|k: int|
                0 <= k < j ==> pipeline_outcome(
                    old(list)@[k],
                    list@[k],
                    *input,
                    #[trigger] results@[k],
                ),
        decreases n - j,
    {
        let p = &mut list[j];
        let res = p.handle(input.duplicate(), moderator);
        results.push(res);
        j = j + 1;
    }
    results
}

/// How dispatching one destination relates the index and the default
/// pipeline before and after to the destination's report. When the
/// priority lookup resolves a key, the report holds one result per
/// pipeline registered there, each related to that pipeline's state
/// before and after as one pipeline run is, the rest of the index and
/// the default pipeline untouched. On a total miss the default pipeline
/// alone runs, the index untouched.
pub open spec fn dispatch_step(
    idx: Map<PipelineKey, Seq<Pipeline>>,
    dflt: Pipeline,
    idx2: Map<PipelineKey, Seq<Pipeline>>,
    dflt2: Pipeline,
    m: InboundMessage,
    dest: i64,
    rep: RouteReport,
) -> bool {
    &&& rep.destination == dest
    &&& match spec_find_key(idx, m.chat_id, dest) {
        Some(k) => {
            &&& dflt2 == dflt
            &&& idx2 == idx.insert(k, idx2[k])
            &&& idx2[k].len() == idx[k].len()
            &&& rep.results@.len() == idx[k].len()
            &&& forall|j: int|
                0 <= j < idx[k].len() ==> pipeline_outcome(
                    idx[k][j],
                    idx2[k][j],
                    m,
                    #[trigger] rep.results@[j],
                )
        },
        None => {
            &&& idx2 == idx
            &&& rep.results@.len() == 1
            &&& pipeline_outcome(dflt, dflt2, m, rep.results@[0])
        },
    }
}

/// The whole dispatch of one message as a chain of per-destination
/// steps: `trace[i]` is the index and default-pipeline state before the
/// `i`-th destination is served, starting from the caller's state and
/// ending in the state the caller gets back, with the `i`-th report
/// arising from the `i`-th step.
pub open spec fn dispatch_trace(
    trace: Seq<(Map<PipelineKey, Seq<Pipeline>>, Pipeline)>,
    start_index: Map<PipelineKey, Seq<Pipeline>>,
    start_default: Pipeline,
    end_index: Map<PipelineKey, Seq<Pipeline>>,
    end_default: Pipeline,
    m: InboundMessage,
    dests: Seq<i64>,
    reports: Seq<RouteReport>,
) -> bool {
    &&& trace.len() == dests.len() + 1
    &&& trace[0] == (start_index, start_default)
    &&& trace[dests.len() as int] == (end_index, end_default)
    &&& reports.len() == dests.len()
    &&& forall|i: int|
        0 <= i < dests.len() ==> dispatch_step(
            trace[i].0,
            trace[i].1,
            trace[i + 1].0,
            trace[i + 1].1,
            m,
            dests[i],
            #[trigger] reports[i],
        )
}

/// Dispatch one inbound message: look up the source's destinations (an
/// unmapped source is silently ignored); for each destination resolve
/// the pipeline list by the priority chain, falling back to the default
/// pipeline on a total miss; run every resolved pipeline; and report,
/// per destination, each pipeline's result. A failure for one pipeline
/// or destination never suppresses the others. Some trace of
/// per-destination steps connects the caller's state to the state
/// handed back, so every reported result is owed by the pipeline that
/// produced it.
pub fn dispatch_message<M: ModerationService>(
    mappings: &MappingsIndex,
    pipelines: &mut PipelinesIndex,
    default_pipeline: &mut Pipeline,
    input: &InboundMessage,
    moderator: &mut M,
) -> (r: Vec<RouteReport>)
    requires
        old(pipelines).wf(),
    ensures
        final(pipelines).wf(),
        index_same_shape(old(pipelines)@, final(pipelines)@),
        pipeline_same_shape(*old(default_pipeline), *final(default_pipeline)),
        !mappings@.contains_key(input.chat_id) ==> r@.len() == 0 && *final(pipelines) == *old(
            pipelines,
        ) && *final(default_pipeline) == *old(default_pipeline),
        mappings@.contains_key(input.chat_id) ==> {
            let dests = mappings@[input.chat_id];
            &&& r@.len() == dests.len()
            &&& forall|i: int|
                0 <= i < dests.len() ==> report_matches(
                    old(pipelines)@,
                    *old(default_pipeline),
                    *input,
                    dests[i],
                    #[trigger] r@[i],
                )
            &&& exists|trace: Seq<(Map<PipelineKey, Seq<Pipeline>>, Pipeline)>|
                dispatch_trace(
                    trace,
                    old(pipelines)@,
                    *old(default_pipeline),
                    final(pipelines)@,
                    *final(default_pipeline),
                    *input,
                    dests,
                    r@,
                )
        },
{
    let destinations = match mappings.get(&input.chat_id) {
        Some(d) => d,
        None => {
            return Vec::new();
        },
    };
    let mut reports: Vec<RouteReport> = Vec::new();
    let ghost mut trace: Seq<(Map<PipelineKey, Seq<Pipeline>>, Pipeline)> = seq![
        (pipelines@, *default_pipeline),
    ];
    let n = destinations.len();
    let mut i: usize = 0;
    while i < n
        invariant
            n == destinations@.len(),
            mappings@.contains_key(input.chat_id),
            destinations@ == mappings@[input.chat_id],
            pipelines.wf(),
            index_same_shape(old(pipelines)@, pipelines@),
            pipeline_same_shape(*old(default_pipeline), *default_pipeline),
            reports@.len() == i,
            0 <= i <= n,
            trace.len() == i + 1,
            trace[0] == (old(pipelines)@, *old(default_pipeline)),
            trace[i as int] == (pipelines@, *default_pipeline),
            forall|k: int|
                0 <= k < i ==> dispatch_step(
                    trace[k].0,
                    trace[k].1,
                    trace[k + 1].0,
                    trace[k + 1].1,
                    *input,
                    destinations@[k],
                    #[trigger] reports@[k],
                ),
            forall|k: int|
                0 <= k < i ==> report_matches(
                    old(pipelines)@,
                    *old(default_pipeline),
                    *input,
                    destinations@[k],
                    #[trigger] reports@[k],
                ),
        decreases n - i,
    {
        let dest = destinations[i];
        let ghost step_idx = pipelines@;
        let ghost step_dflt = *default_pipeline;
        let position = pipelines.position_for(&input.chat_id, &dest);
        let results = match position {
            Some(p) => {
                let ghost pre_entries = pipelines.entries@;
                let ghost key = pre_entries[p as int].0;
                proof {
                    assert(spec_find_key(old(pipelines)@, input.chat_id, dest) == spec_find_key(
                        step_idx,
                        input.chat_id,
                        dest,
                    ));
                }
                let list = &mut pipelines.entries[p].1;
                let run_results = run_pipelines(list, input, moderator);
                proof {
                    assert(pipelines.entries@ =~= pre_entries.update(
                        p as int,
                        (key, pipelines.entries@[p as int].1),
                    ));
                    lemma_pipelines_map_update(
                        pre_entries,
                        p as int,
                        pipelines.entries@[p as int].1,
                    );
                    assert(pipelines@.dom() =~= step_idx.dom());
                    assert(forall|q: int|
                        0 <= q < pipelines.entries@.len() ==> (#[trigger] pipelines.entries@[q]).0
                            == pre_entries[q].0);
                    assert(pipelines@ == step_idx.insert(key, pipelines@[key]));
                    assert forall|q: int| 0 <= q < step_idx[key].len() implies pipeline_same_shape(
                        step_idx[key][q],
                        #[trigger] pipelines@[key][q],
                    ) by {
                        assert(pipeline_outcome(
                            step_idx[key][q],
                            pipelines@[key][q],
                            *input,
                            run_results@[q],
                        ));
                    }
                }
                run_results
            },
            None => {
                proof {
                    assert(spec_find_key(old(pipelines)@, input.chat_id, dest) == spec_find_key(
                        step_idx,
                        input.chat_id,
                        dest,
                    ));
                }
                let res = default_pipeline.handle(input.duplicate(), moderator);
                let mut one: Vec<PipelineResult> = Vec::new();
                one.push(res);
                one
            },
        };
        reports.push(RouteReport { destination: dest, results });
        proof {
            trace = trace.push((pipelines@, *default_pipeline));
            assert(dispatch_step(
                step_idx,
                step_dflt,
                pipelines@,
                *default_pipeline,
                *input,
                destinations@[i as int],
                reports@[i as int],
            ));
        }
        i = i + 1;
    }
    proof {
        assert(dispatch_trace(
            trace,
            old(pipelines)@,
            *old(default_pipeline),
            pipelines@,
            *default_pipeline,
            *input,
            destinations@,
            reports@,
        ));
    }
    reports
}

} // verus!
