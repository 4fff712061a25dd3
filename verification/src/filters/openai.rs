//! The delegated moderation filter: hand the message text, with a
//! moderation prompt built from the configured context, to the external
//! classification collaborator, and reject unless it plainly allows.

use vstd::prelude::*;
use vstd::string::StringExecFns;

use crate::data::DataHub;
use crate::filter::FilterResult;
use crate::helpers::{find_input_message_text, spec_input_text};
use crate::moderation::{ModerationReply, ModerationService};
use crate::outside::{json_bool_field, json_bool_of, render_template};

verus! {

/// Delegate the pass/reject decision for a message's text to the
/// external classification collaborator, under the configured model,
/// context and guidelines.
pub struct OpenAi {
    pub model: String,
    pub context: String,
    pub guidelines: String,
}

/// Whether one answer allows the message: its content (an absent content
/// counts as an empty JSON object) must hold `true` under `allow`.
pub open spec fn openai_choice_allows(content: Option<String>) -> bool {
    match content {
        Some(s) => json_bool_field(s@, "allow"@),
        None => json_bool_field("{}"@, "allow"@),
    }
}

/// Whether a reply allows the message: a failed call never does; an
/// answered call does exactly when some answer allows it.
pub open spec fn openai_allows(reply: ModerationReply) -> bool {
    match reply {
        ModerationReply::Failed => false,
        ModerationReply::Answers(choices) => exists|i: int|
            0 <= i < choices@.len() && openai_choice_allows(#[trigger] choices@[i]),
    }
}

impl OpenAi {
    pub fn builder() -> (r: OpenAiBuilder)
        ensures
            r.inner.model@ == Seq::<char>::empty(),
            r.inner.context@ == Seq::<char>::empty(),
            r.inner.guidelines@ == Seq::<char>::empty(),
    {
        OpenAiBuilder {
            inner: OpenAi { model: String::new(), context: String::new(), guidelines: String::new() },
        }
    }

    /// The verdict a reply carries, fail-closed: allow only when some
    /// answer is a JSON object holding `true` under `allow`.
    pub fn decide(reply: &ModerationReply) -> (r: bool)
        ensures
            r == openai_allows(*reply),
    {
        match reply {
            ModerationReply::Failed => false,
            ModerationReply::Answers(choices) => {
                let mut allowed = false;
                let mut i: usize = 0;
                while i < choices.len()
                    invariant
                        0 <= i <= choices@.len(),
                        allowed == exists|j: int|
                            0 <= j < i && openai_choice_allows(#[trigger] choices@[j]),
                    decreases choices@.len() - i,
                {
                    let this_one = match &choices[i] {
                        Some(content) => json_bool_of(content.as_str(), "allow"),
                        None => json_bool_of("{}", "allow"),
                    };
                    if this_one {
                        allowed = true;
                    }
                    i = i + 1;
                }
                allowed
            },
        }
    }

    /// Reject messages without a text, and delegate the rest: the
    /// collaborator is called with the rendered moderation prompt and the
    /// message text, and the message passes exactly when the reply allows
    /// it. A failure anywhere rejects (fail-closed), never faults.
    pub fn filter<M: ModerationService>(&self, data: &DataHub, moderator: &mut M) -> (r:
        FilterResult)
        ensures
            spec_input_text(data.input.content) is None ==> r is Err,
    {
        let text = match find_input_message_text(&data.input) {
            Some(t) => t,
            None => {
                return Err(());
            },
        };
        let mut vars: Vec<(String, String)> = Vec::new();
        vars.push(("context".to_owned(), self.context.clone()));
        vars.push(("guidelines".to_owned(), self.guidelines.clone()));
        let prompt = match render_template(openai_prompt_template(), &vars) {
            Some(p) => p,
            None => {
                return Err(());
            },
        };
        let mut user_text = "User Message: '''\n".to_owned();
        user_text.append(text.as_str());
        user_text.append("\n'''");
        let reply = moderator.moderate(self.model.as_str(), prompt.as_str(), user_text.as_str());
        if OpenAi::decide(&reply) {
            Ok(())
        } else {
            Err(())
        }
    }
}

/// The system prompt handed to the collaborator, with the configured
/// context and guidelines bound to its placeholders.
fn openai_prompt_template() -> &'static str {
    "
Given the following message and its context, evaluate its appropriateness, relevance, and adherence to predefined guidelines. Provide a decision on whether the message should be allowed or blocked.

Context Information:
'''
{context}
'''

Guidelines for Moderation:
'''
{guidelines}
'''

Based on the above information and guidelines, provide your analysis and decision.

IMPORTANT!!! Always return response in JSON format with 2 keys - analyses and allow.
analyses - MUST be text/string.
allow - MUST be true or false.
"
}

pub struct OpenAiBuilder {
    pub inner: OpenAi,
}

impl OpenAiBuilder {
    pub fn context(self, context: String) -> (r: OpenAiBuilder)
        ensures
            r.inner.context == context,
            r.inner.model == self.inner.model,
            r.inner.guidelines == self.inner.guidelines,
    {
        OpenAiBuilder {
            inner: OpenAi {
                model: self.inner.model,
                context,
                guidelines: self.inner.guidelines,
            },
        }
    }

    pub fn guidelines(self, guidelines: String) -> (r: OpenAiBuilder)
        ensures
            r.inner.guidelines == guidelines,
            r.inner.model == self.inner.model,
            r.inner.context == self.inner.context,
    {
        OpenAiBuilder {
            inner: OpenAi { model: self.inner.model, context: self.inner.context, guidelines },
        }
    }

    pub fn model(self, model: String) -> (r: OpenAiBuilder)
        ensures
            r.inner.model == model,
            r.inner.context == self.inner.context,
            r.inner.guidelines == self.inner.guidelines,
    {
        OpenAiBuilder {
            inner: OpenAi { model, context: self.inner.context, guidelines: self.inner.guidelines },
        }
    }

    pub fn build(self) -> (r: OpenAi)
        ensures
            r == self.inner,
    {
        self.inner
    }
}

} // verus!
