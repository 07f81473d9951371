use vstd::prelude::*;

use crate::timestamp::{now, Timestamp};

verus! {

/// A named, tagged block of instruction text that configures a model.
#[derive(Debug)]
pub struct SystemPrompt {
    pub id: String,
    pub name: String,
    pub description: Option<String>,
    pub content: String,
    pub is_default: bool,
    pub created_at: Timestamp,
    pub updated_at: Timestamp,
    pub tags: Vec<String>,
    pub model_specific: Option<String>,
}

/// The mathematical value of a [`SystemPrompt`].
pub ghost struct PromptView {
    pub id: Seq<char>,
    pub name: Seq<char>,
    pub description: Option<Seq<char>>,
    pub content: Seq<char>,
    pub is_default: bool,
    pub created_at: Timestamp,
    pub updated_at: Timestamp,
    pub tags: Seq<Seq<char>>,
    pub model_specific: Option<Seq<char>>,
}

pub open spec fn opt_view(o: Option<String>) -> Option<Seq<char>> {
    match o {
        Some(s) => Some(s@),
        None => None,
    }
}

pub open spec fn strings_view(v: Seq<String>) -> Seq<Seq<char>> {
    v.map_values(|s: String| s@)
}

impl View for SystemPrompt {
    type V = PromptView;

    open spec fn view(&self) -> PromptView {
        PromptView {
            id: self.id@,
            name: self.name@,
            description: opt_view(self.description),
            content: self.content@,
            is_default: self.is_default,
            created_at: self.created_at,
            updated_at: self.updated_at,
            tags: strings_view(self.tags@),
            model_specific: opt_view(self.model_specific),
        }
    }
}

pub(crate) fn clone_opt_string(o: &Option<String>) -> (r: Option<String>)
    ensures
        opt_view(r) == opt_view(*o),
{
    match o {
        Some(s) => Some(s.clone()),
        None => None,
    }
}

pub(crate) fn clone_strings(v: &Vec<String>) -> (r: Vec<String>)
    ensures
        strings_view(r@) == strings_view(v@),
{
    let mut r: Vec<String> = Vec::new();
    let mut i: usize = 0;
    while i < v.len()
        invariant
            i <= v@.len(),
            r@ == v@.subrange(0, i as int),
        decreases v@.len() - i,
    {
        r.push(v[i].clone());
        i = i + 1;
    }
    assert(r@ =~= v@);
    r
}

impl Clone for SystemPrompt {
    fn clone(&self) -> (r: Self)
        ensures
            r@ == self@,
    {
        SystemPrompt {
            id: self.id.clone(),
            name: self.name.clone(),
            description: clone_opt_string(&self.description),
            content: self.content.clone(),
            is_default: self.is_default,
            created_at: self.created_at,
            updated_at: self.updated_at,
            tags: clone_strings(&self.tags),
            model_specific: clone_opt_string(&self.model_specific),
        }
    }
}

/// Relies on uuid::Uuid::new_v4 and its `Display` impl: a random version-4
/// UUID written in hyphenated form, 36 characters long.
#[verifier::external_body]
fn fresh_id() -> (r: String)
    ensures
        r@.len() == 36,
{
    uuid::Uuid::new_v4().to_string()
}

impl SystemPrompt {
    /// A new prompt with a fresh id, both timestamps set to the current time,
    /// no description, no tags, no target model, and not the default.
    pub fn new(name: String, content: String) -> (r: Self)
        ensures
            r@.id.len() == 36,
            r@.name == name@,
            r@.description == None::<Seq<char>>,
            r@.content == content@,
            !r@.is_default,
            r@.created_at == r@.updated_at,
            r@.tags == Seq::<Seq<char>>::empty(),
            r@.model_specific == None::<Seq<char>>,
    {
        let t = now();
        let r = SystemPrompt {
            id: fresh_id(),
            name,
            description: None,
            content,
            is_default: false,
            created_at: t,
            updated_at: t,
            tags: Vec::new(),
            model_specific: None,
        };
        assert(r@.tags =~= Seq::<Seq<char>>::empty());
        r
    }

    pub fn with_description(self, description: String) -> (r: Self)
        ensures
            r@ == (PromptView { description: Some(description@), ..self@ }),
    {
        let mut p = self;
        p.description = Some(description);
        p
    }

    pub fn with_tags(self, tags: Vec<String>) -> (r: Self)
        ensures
            r@ == (PromptView { tags: strings_view(tags@), ..self@ }),
    {
        let mut p = self;
        p.tags = tags;
        p
    }

    pub fn with_model_specific(self, model: String) -> (r: Self)
        ensures
            r@ == (PromptView { model_specific: Some(model@), ..self@ }),
    {
        let mut p = self;
        p.model_specific = Some(model);
        p
    }

    pub fn set_as_default(self) -> (r: Self)
        ensures
            r@ == (PromptView { is_default: true, ..self@ }),
    {
        let mut p = self;
        p.is_default = true;
        p
    }

    /// Replaces the content and stamps `updated_at` with the current time;
    /// every other field is kept.
    pub fn update_content(&mut self, content: String)
        ensures
            final(self)@ == (PromptView {
                content: content@,
                updated_at: final(self)@.updated_at,
                ..old(self)@
            }),
    {
        self.content = content;
        self.updated_at = now();
    }
}

} // verus!
