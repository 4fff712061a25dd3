//! A second delegated moderation filter, with a numeric answer format:
//! the collaborator answers `1` to allow and `0` to deny.

use vstd::prelude::*;

use crate::data::DataHub;
use crate::filter::FilterResult;
use crate::helpers::{find_input_message_text, spec_input_text};
use crate::moderation::{ModerationReply, ModerationService};
use crate::outside::{parse_u8, render_template, spec_parsed_u8};

verus! {

/// Delegate the pass/reject decision for a message's text to the
/// external classification collaborator, describing the context by a
/// title and a description.
pub struct Context {
    pub model: String,
    pub title: String,
    pub description: String,
    pub guidelines: String,
}

/// Whether one answer allows the message: its content must read as the
/// number one; an absent or unreadable content denies.
pub open spec fn context_choice_allows(content: Option<String>) -> bool {
    match content {
        Some(s) => spec_parsed_u8(s@) == Some(1u8),
        None => false,
    }
}

/// Whether a reply allows the message: a failed call never does; an
/// answered call does exactly when some answer allows it.
pub open spec fn context_allows(reply: ModerationReply) -> bool {
    match reply {
        ModerationReply::Failed => false,
        ModerationReply::Answers(choices) => exists|i: int|
            0 <= i < choices@.len() && context_choice_allows(#[trigger] choices@[i]),
    }
}

impl Context {
    pub fn builder() -> (r: ContextBuilder)
        ensures
            r.inner.model@ == Seq::<char>::empty(),
            r.inner.title@ == Seq::<char>::empty(),
            r.inner.description@ == Seq::<char>::empty(),
            r.inner.guidelines@ == Seq::<char>::empty(),
    {
        ContextBuilder {
            inner: Context {
                model: String::new(),
                title: String::new(),
                description: String::new(),
                guidelines: String::new(),
            },
        }
    }

    /// The verdict a reply carries, fail-closed: allow only when some
    /// answer reads as the number one.
    pub fn decide(reply: &ModerationReply) -> (r: bool)
        ensures
            r == context_allows(*reply),
    {
        match reply {
            ModerationReply::Failed => false,
            ModerationReply::Answers(choices) => {
                let mut allowed = false;
                let mut i: usize = 0;
                while i < choices.len()
                    invariant
                        0 <= i <= choices@.len(),
                        allowed == exists|j: int|
                            0 <= j < i && context_choice_allows(#[trigger] choices@[j]),
                    decreases choices@.len() - i,
                {
                    let this_one = match &choices[i] {
                        Some(content) => match parse_u8(content.as_str()) {
                            Some(v) => v == 1,
                            None => false,
                        },
                        None => false,
                    };
                    if this_one {
                        allowed = true;
                    }
                    i = i + 1;
                }
                allowed
            },
        }
    }

    /// Reject messages without a text, and delegate the rest; the message
    /// passes exactly when the reply allows it. A failure anywhere
    /// rejects (fail-closed), never faults.
    pub fn filter<M: ModerationService>(&self, data: &DataHub, moderator: &mut M) -> (r:
        FilterResult)
        ensures
            spec_input_text(data.input.content) is None ==> r is Err,
    {
        let text = match find_input_message_text(&data.input) {
            Some(t) => t,
            None => {
                return Err(());
            },
        };
        let mut vars: Vec<(String, String)> = Vec::new();
        vars.push(("title".to_owned(), self.title.clone()));
        vars.push(("description".to_owned(), self.description.clone()));
        vars.push(("guidelines".to_owned(), self.guidelines.clone()));
        let prompt = match render_template(context_prompt_template(), &vars) {
            Some(p) => p,
            None => {
                return Err(());
            },
        };
        let reply = moderator.moderate(self.model.as_str(), prompt.as_str(), text.as_str());
        if Context::decide(&reply) {
            Ok(())
        } else {
            Err(())
        }
    }
}

/// The system prompt handed to the collaborator, with the configured
/// title, description and guidelines bound to its placeholders.
fn context_prompt_template() -> &'static str {
    "
Given the following message and its context, evaluate its appropriateness, relevance, and adherence to predefined guidelines. Provide a decision on whether the message should be allowed or blocked.

Context Information:
'''
title: {title}
description: {description}
'''

Guidelines for Moderation:
'''
{guidelines}
'''

Based on the above information and guidelines, provide your analysis and decision in provided response format.

IMPORTANT!!! ONLY Answer with this Response Format:
0 // Deny
1 // Allow
"
}

pub struct ContextBuilder {
    pub inner: Context,
}

impl ContextBuilder {
    pub fn title(self, title: String) -> (r: ContextBuilder)
        ensures
            r.inner.title == title,
            r.inner.model == self.inner.model,
            r.inner.description == self.inner.description,
            r.inner.guidelines == self.inner.guidelines,
    {
        ContextBuilder {
            inner: Context {
                model: self.inner.model,
                title,
                description: self.inner.description,
                guidelines: self.inner.guidelines,
            },
        }
    }

    pub fn description(self, description: String) -> (r: ContextBuilder)
        ensures
            r.inner.description == description,
            r.inner.model == self.inner.model,
            r.inner.title == self.inner.title,
            r.inner.guidelines == self.inner.guidelines,
    {
        ContextBuilder {
            inner: Context {
                model: self.inner.model,
                title: self.inner.title,
                description,
                guidelines: self.inner.guidelines,
            },
        }
    }

    pub fn guidelines(self, guidelines: String) -> (r: ContextBuilder)
        ensures
            r.inner.guidelines == guidelines,
            r.inner.model == self.inner.model,
            r.inner.title == self.inner.title,
            r.inner.description == self.inner.description,
    {
        ContextBuilder {
            inner: Context {
                model: self.inner.model,
                title: self.inner.title,
                description: self.inner.description,
                guidelines,
            },
        }
    }

    pub fn model(self, model: String) -> (r: ContextBuilder)
        ensures
            r.inner.model == model,
            r.inner.title == self.inner.title,
            r.inner.description == self.inner.description,
            r.inner.guidelines == self.inner.guidelines,
    {
        ContextBuilder {
            inner: Context {
                model,
                title: self.inner.title,
                description: self.inner.description,
                guidelines: self.inner.guidelines,
            },
        }
    }

    pub fn build(self) -> (r: Context)
        ensures
            r == self.inner,
    {
        self.inner
    }
}

} // verus!
