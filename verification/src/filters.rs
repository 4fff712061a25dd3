//! The filter variants: each one a predicate over the processing context.

pub mod ai;
pub mod counter;
pub mod duration;
pub mod file_size;
pub mod incoming;
pub mod message_type;
pub mod openai;
pub mod regexp;
pub mod text_length;
pub mod unique;
pub mod wordlist;
