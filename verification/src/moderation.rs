//! The external text-classification collaborator that delegated
//! moderation checks call out to.

use vstd::prelude::*;

verus! {

/// What came back from one moderation call: an outright failure, or the
/// answer texts of the choices the service produced (a choice may carry
/// no content).
pub enum ModerationReply {
    Failed,
    Answers(Vec<Option<String>>),
}

/// The collaborator a moderation filter delegates its pass/reject
/// decision to. Nothing is promised of the reply: a filter must state
/// what holds whatever comes back.
pub trait ModerationService {
    fn moderate(&mut self, model: &str, system_prompt: &str, user_text: &str) -> ModerationReply;
}

/// A collaborator with no service behind it: every call fails, so every
/// delegated check rejects (fail-closed).
pub struct NoModeration;

impl ModerationService for NoModeration {
    fn moderate(&mut self, _model: &str, _system_prompt: &str, _user_text: &str) -> ModerationReply {
        ModerationReply::Failed
    }
}

} // verus!
