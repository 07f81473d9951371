use vstd::prelude::*;

use crate::prompt::{opt_view, strings_view, SystemPrompt};

verus! {

/// The fields of a prompt to create.
pub struct CreateSystemPromptRequest {
    pub name: String,
    pub description: Option<String>,
    pub content: String,
    pub tags: Option<Vec<String>>,
    pub model_specific: Option<String>,
    pub is_default: Option<bool>,
}

/// The fields of a prompt to change; an absent field is kept.
pub struct UpdateSystemPromptRequest {
    pub name: Option<String>,
    pub description: Option<String>,
    pub content: Option<String>,
    pub tags: Option<Vec<String>>,
    pub model_specific: Option<String>,
}

/// The prompt to make the default.
pub struct SetDefaultRequest {
    pub id: String,
}

/// The tags to search prompts by.
pub struct SearchPromptsRequest {
    pub tags: Vec<String>,
}

pub open spec fn opt_strings_view(o: Option<Vec<String>>) -> Option<Seq<Seq<char>>> {
    match o {
        Some(v) => Some(strings_view(v@)),
        None => None,
    }
}

impl CreateSystemPromptRequest {
    /// A new prompt (fresh id, current time) with the requested fields; it is
    /// the default only where `is_default` is `Some(true)`.
    pub fn into_prompt(self) -> (r: SystemPrompt)
        ensures
            r@.id.len() == 36,
            r@.created_at == r@.updated_at,
            r@.name == self.name@,
            r@.content == self.content@,
            r@.description == opt_view(self.description),
            r@.tags == match opt_strings_view(self.tags) {
                Some(t) => t,
                None => Seq::<Seq<char>>::empty(),
            },
            r@.model_specific == opt_view(self.model_specific),
            r@.is_default == (self.is_default == Some(true)),
    {
        let mut prompt = SystemPrompt::new(self.name, self.content);
        if let Some(description) = self.description {
            prompt = prompt.with_description(description);
        }
        if let Some(tags) = self.tags {
            prompt = prompt.with_tags(tags);
        }
        if let Some(model) = self.model_specific {
            prompt = prompt.with_model_specific(model);
        }
        let make_default = match self.is_default {
            Some(b) => b,
            None => false,
        };
        if make_default {
            prompt = prompt.set_as_default();
        }
        prompt
    }
}

impl UpdateSystemPromptRequest {
    /// Writes each present field into `prompt`.  New content also stamps
    /// `updated_at`; id, default mark and creation time are kept.
    pub fn apply_to(self, prompt: &mut SystemPrompt)
        ensures
            final(prompt)@.id == old(prompt)@.id,
            final(prompt)@.is_default == old(prompt)@.is_default,
            final(prompt)@.created_at == old(prompt)@.created_at,
            final(prompt)@.name == match self.name {
                Some(n) => n@,
                None => old(prompt)@.name,
            },
            final(prompt)@.description == match self.description {
                Some(d) => Some(d@),
                None => old(prompt)@.description,
            },
            final(prompt)@.content == match self.content {
                Some(c) => c@,
                None => old(prompt)@.content,
            },
            self.content is None ==> final(prompt)@.updated_at == old(prompt)@.updated_at,
            final(prompt)@.tags == match opt_strings_view(self.tags) {
                Some(t) => t,
                None => old(prompt)@.tags,
            },
            final(prompt)@.model_specific == match self.model_specific {
                Some(m) => Some(m@),
                None => old(prompt)@.model_specific,
            },
    {
        if let Some(name) = self.name {
            prompt.name = name;
        }
        if let Some(description) = self.description {
            prompt.description = Some(description);
        }
        if let Some(content) = self.content {
            prompt.update_content(content);
        }
        if let Some(tags) = self.tags {
            prompt.tags = tags;
        }
        if let Some(model) = self.model_specific {
            prompt.model_specific = Some(model);
        }
    }
}

} // verus!
