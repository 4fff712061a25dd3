//! The template pipe: render a template with the current output text
//! bound to the `message` placeholder.

use vstd::prelude::*;

use crate::data::DataHub;
use crate::helpers::{find_output_message_text, spec_output_text, spec_set_text};
use crate::message::{opt_out_view, OutView};
use crate::outside::{pairs_view, render_template, template_render};

verus! {

/// Render the template with the current output text bound to the
/// `message` placeholder, and replace the output text with the result.
pub struct Format {
    pub template: String,
}

/// What the format pipe leaves as output: nothing changes with no output,
/// no text, or a template that does not render; else the text is replaced
/// with the rendered result.
pub open spec fn format_apply(p: Format, cur: Option<OutView>) -> Option<OutView> {
    match cur {
        None => None,
        Some(o) => match spec_output_text(o) {
            None => cur,
            Some(t) => match template_render(p.template@, seq![("message"@, t)]) {
                Some(t2) => spec_set_text(cur, t2),
                None => cur,
            },
        },
    }
}

impl Format {
    pub fn builder() -> (r: FormatBuilder)
        ensures
            r.inner.template@ == Seq::<char>::empty(),
    {
        FormatBuilder { inner: Format { template: String::new() } }
    }

    /// Replace the output text with the rendered template.
    pub fn handle(&self, data: &mut DataHub)
        ensures
            final(data).input == old(data).input,
            opt_out_view(final(data).output) == format_apply(
                Format { template: self.template },
                opt_out_view(old(data).output),
            ),
    {
        let current = match &data.output {
            Some(m) => match find_output_message_text(m) {
                Some(t) => t.clone(),
                None => {
                    return;
                },
            },
            None => {
                return;
            },
        };
        let mut vars: Vec<(String, String)> = Vec::new();
        vars.push(("message".to_owned(), current.clone()));
        proof {
            assert(pairs_view(vars@) =~= seq![("message"@, current@)]);
        }
        match render_template(self.template.as_str(), &vars) {
            Some(rendered) => {
                data.set_output_text(rendered);
            },
            None => {},
        }
    }
}

pub struct FormatBuilder {
    pub inner: Format,
}

impl FormatBuilder {
    pub fn template(self, template: String) -> (r: FormatBuilder)
        ensures
            r.inner.template == template,
    {
        FormatBuilder { inner: Format { template } }
    }

    pub fn build(self) -> (r: Format)
        ensures
            r == self.inner,
    {
        self.inner
    }
}

} // verus!
