//! The already-parsed configuration the core consumes: channel mappings
//! and named pipeline definitions.

use vstd::prelude::*;

verus! {

/// The whole configuration: channel mappings and pipeline definitions.
pub struct Configs {
    pub maps: Vec<IdMapConf>,
    pub pipelines: Vec<PipelineConf>,
}

/// One mapping entry: a source channel and its destination channels. An
/// empty destination list means the source forwards to itself.
pub struct IdMapConf {
    pub source: i64,
    pub destinations: Vec<i64>,
}

/// A route with optional source and destination; an absent side matches
/// any channel.
pub struct RouteConf {
    pub source: Option<i64>,
    pub destination: Option<i64>,
}

impl Default for RouteConf {
    /// The route of a pipeline definition that names none: the reserved
    /// wildcard channel on both sides, matched when no concrete route is.
    fn default() -> (r: Self)
        ensures
            r.source == Some(0i64),
            r.destination == Some(0i64),
    {
        RouteConf { source: Some(0), destination: Some(0) }
    }
}

/// One pipeline definition: a name for diagnostics, the route it applies
/// to, and its ordered filter and pipe settings.
pub struct PipelineConf {
    pub name: String,
    pub route: RouteConf,
    pub filters: Vec<FilterConf>,
    pub pipes: Vec<PipeConf>,
}

/// The configurable filters.
pub enum FilterConf {
    Incoming,
    Text,
    Video,
    Photo,
    Animation,
    Document,
    AnyFile,
    Duration { duration: i32, op: String },
    TextLength { len: u16, op: String },
    Counter { count: u8 },
    /// The size threshold is in bytes.
    FileSize { size: i64, op: String },
    Regexp { exp: String },
    BlackList { words: Vec<String> },
    WhiteList { words: Vec<String> },
    Unique,
    OpenAi { model: String, context: String, guidelines: String },
}

/// The configurable pipes.
pub enum PipeConf {
    Transform,
    Format { template: String },
    StaticText { text: String },
    StaticPhoto { path: String },
    Replace { search: Vec<String>, replace: String },
    ReplaceRegexp { search: String, replace: String, all: bool },
}

} // verus!
