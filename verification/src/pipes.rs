//! The pipe variants: each one a mutator of the outbound payload.

pub mod format;
pub mod replace;
pub mod replace_regexp;
pub mod statics;
pub mod transform;
