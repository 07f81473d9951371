//! The prompt store: an in-memory image of the collection file, and the
//! operations that read and change it.

use vstd::prelude::*;

use crate::collection::{
    at_most_one_default, cleared, defaulted, entries_view, first_from, first_match, has_key,
    initialized, key_index, keys_unique, lemma_cleared_keys, lemma_defaulted_single_default,
    lemma_index_is_key_index, lemma_put_keys, lemma_remove_keys, lemma_stored_with_single_default,
    lemma_tagged_empty_query, lookup, model_choice, prompts_view, put, satisfies, seeded,
    shares_tag, sorted_by_name, stored_with, tagged, tagged_upto, undefault, values, Criterion,
    EntryView, StoreState,
};
use crate::error::{
    delete_default_refused, is_delete_default, is_not_found, not_found, ConfigError,
};
use crate::prompt::{strings_view, PromptView, SystemPrompt};
use crate::text::{contains_str, lemma_name_le_total, lemma_name_le_trans, name_le, str_le};

verus! {

/// The in-memory image of a prompt collection file: an ordered list of
/// entries, each a key and the prompt stored under it.  The order is the one
/// in which the entries were loaded or first inserted; every "first match"
/// below refers to it.
pub struct SystemPromptManager {
    has_file: bool,
    entries: Vec<(String, SystemPrompt)>,
}

impl View for SystemPromptManager {
    type V = StoreState;

    closed spec fn view(&self) -> StoreState {
        StoreState { has_file: self.has_file, entries: entries_view(self.entries@) }
    }
}

pub open spec fn opt_prompt_view(r: Option<SystemPrompt>) -> Option<PromptView> {
    match r {
        Some(p) => Some(p@),
        None => None,
    }
}

/// The executable form of a [`Criterion`].
enum Select {
    Name(String),
    Default,
    ModelExact(String),
    ModelPartial(String),
}

impl View for Select {
    type V = Criterion;

    closed spec fn view(&self) -> Criterion {
        match self {
            Select::Name(n) => Criterion::Name(n@),
            Select::Default => Criterion::Default,
            Select::ModelExact(m) => Criterion::ModelExact(m@),
            Select::ModelPartial(m) => Criterion::ModelPartial(m@),
        }
    }
}

fn selects(sel: &Select, p: &SystemPrompt) -> (r: bool)
    ensures
        r == satisfies(sel@, p@),
{
    match sel {
        Select::Name(n) => p.name == *n,
        Select::Default => p.is_default,
        Select::ModelExact(m) => match &p.model_specific {
            Some(x) => *x == *m,
            None => false,
        },
        Select::ModelPartial(m) => match &p.model_specific {
            Some(x) => contains_str(m.as_str(), x.as_str()) || contains_str(x.as_str(), m.as_str()),
            None => false,
        },
    }
}

fn contains_string(v: &Vec<String>, x: &String) -> (r: bool)
    ensures
        r == strings_view(v@).contains(x@),
{
    let mut i: usize = 0;
    while i < v.len()
        invariant
            i <= v@.len(),
            forall|j: int| 0 <= j < i ==> #[trigger] v@[j]@ != x@,
        decreases v@.len() - i,
    {
        if v[i] == *x {
            assert(strings_view(v@)[i as int] == x@);
            return true;
        }
        i = i + 1;
    }
    assert forall|j: int| 0 <= j < strings_view(v@).len() implies strings_view(v@)[j] != x@ by {
        assert(v@[j]@ != x@);
    }
    false
}

fn has_any_tag(p: &SystemPrompt, tags: &[String]) -> (r: bool)
    ensures
        r == shares_tag(p@, strings_view(tags@)),
{
    let ghost q = strings_view(tags@);
    let mut i: usize = 0;
    while i < tags.len()
        invariant
            i <= tags@.len(),
            q == strings_view(tags@),
            forall|j: int| 0 <= j < i ==> !p@.tags.contains(#[trigger] q[j]),
        decreases tags@.len() - i,
    {
        if contains_string(&p.tags, &tags[i]) {
            assert(p@.tags.contains(q[i as int]));
            return true;
        }
        i = i + 1;
    }
    false
}

impl SystemPromptManager {
    /// The entries are keyed uniquely, and a store without a file is empty.
    pub open spec fn wf(&self) -> bool {
        &&& keys_unique(self@.entries)
        &&& (!self@.has_file ==> self@.entries.len() == 0)
    }

    /// A store whose collection file does not exist yet.
    pub fn new() -> (r: Self)
        ensures
            r.wf(),
            !r@.has_file,
            r@.entries == Seq::<EntryView>::empty(),
    {
        let r = SystemPromptManager { has_file: false, entries: Vec::new() };
        assert(r@.entries =~= Seq::<EntryView>::empty());
        r
    }

    fn find_key(&self, key: &String) -> (r: Option<usize>)
        requires
            self.wf(),
        ensures
            r is Some <==> has_key(self@.entries, key@),
            r matches Some(i) ==> i == key_index(self@.entries, key@) && i < self@.entries.len(),
    {
        let mut i: usize = 0;
        while i < self.entries.len()
            invariant
                self.wf(),
                i <= self.entries@.len(),
                forall|j: int| 0 <= j < i ==> #[trigger] self@.entries[j].0 != key@,
            decreases self.entries@.len() - i,
        {
            if self.entries[i].0 == *key {
                proof {
                    lemma_index_is_key_index(self@.entries, key@, i as int);
                }
                return Some(i);
            }
            i = i + 1;
        }
        None
    }

    fn clear_defaults(&mut self)
        requires
            old(self).wf(),
        ensures
            final(self).wf(),
            final(self)@.has_file == old(self)@.has_file,
            final(self)@.entries == cleared(old(self)@.entries),
    {
        let ghost s = self@.entries;
        let mut i: usize = 0;
        while i < self.entries.len()
            invariant
                i <= self.entries@.len(),
                self@.has_file == old(self)@.has_file,
                self@.entries.len() == s.len(),
                forall|j: int| 0 <= j < i ==> #[trigger] self@.entries[j] == undefault(s[j]),
                forall|j: int| i <= j < s.len() ==> #[trigger] self@.entries[j] == s[j],
            decreases self.entries@.len() - i,
        {
            let ghost before = self.entries@;
            assert(self@.entries[i as int] == s[i as int]);
            let mut p = self.entries[i].1.clone();
            p.is_default = false;
            let k = self.entries[i].0.clone();
            self.entries[i] = (k, p);
            proof {
                assert forall|j: int| 0 <= j < i + 1 implies #[trigger] self@.entries[j]
                    == undefault(s[j]) by {
                    if j < i {
                        assert(entries_view(before)[j] == undefault(s[j]));
                    }
                }
                assert forall|j: int| i + 1 <= j < s.len() implies #[trigger] self@.entries[j]
                    == s[j] by {
                    assert(entries_view(before)[j] == s[j]);
                }
            }
            i = i + 1;
        }
        assert(self@.entries =~= cleared(s));
        proof {
            lemma_cleared_keys(s, Seq::<char>::empty());
        }
    }
}


impl SystemPromptManager {
    /// Stores `p` under `key`, replacing the entry with that key or appending
    /// a new one; the collection file exists afterwards.
    fn put_entry(&mut self, key: String, p: SystemPrompt)
        requires
            old(self).wf(),
        ensures
            final(self).wf(),
            final(self)@.has_file,
            final(self)@.entries == put(old(self)@.entries, key@, p@),
    {
        let ghost s = self@.entries;
        let ghost k = key@;
        let ghost pv = p@;
        match self.find_key(&key) {
            Some(i) => {
                self.entries[i] = (key, p);
            },
            None => {
                self.entries.push((key, p));
            },
        }
        self.has_file = true;
        proof {
            lemma_put_keys(s, k, pv);
        }
        assert(self@.entries =~= put(s, k, pv));
    }

    /// Adds `prompt` under its own id, replacing an entry with that id.  A
    /// default prompt first takes the default mark from every other entry.
    pub fn create_prompt(&mut self, prompt: SystemPrompt) -> (r: SystemPrompt)
        requires
            old(self).wf(),
        ensures
            final(self).wf(),
            final(self)@.has_file,
            final(self)@.entries == stored_with(old(self)@.entries, prompt@.id, prompt@),
            at_most_one_default(old(self)@.entries) ==> at_most_one_default(
                final(self)@.entries,
            ),
            r@ == prompt@,
    {
        proof {
            if at_most_one_default(self@.entries) {
                lemma_stored_with_single_default(self@.entries, prompt@.id, prompt@);
            }
        }
        if prompt.is_default {
            self.clear_defaults();
        }
        let key = prompt.id.clone();
        let r = prompt.clone();
        self.put_entry(key, prompt);
        r
    }

    /// The prompt stored under `id`.
    pub fn get_prompt(&self, id: &str) -> (r: Option<SystemPrompt>)
        requires
            self.wf(),
        ensures
            opt_prompt_view(r) == lookup(self@.entries, id@),
    {
        let key = String::from_str(id);
        match self.find_key(&key) {
            Some(i) => Some(self.entries[i].1.clone()),
            None => None,
        }
    }

    /// Replaces the prompt stored under `id` with `updated_prompt`, as given.
    /// A default prompt first takes the default mark from every other entry.
    /// Fails with `NotFound`, changing nothing, where no entry has key `id`.
    pub fn update_prompt(&mut self, id: &str, updated_prompt: SystemPrompt) -> (r: Result<
        SystemPrompt,
        ConfigError,
    >)
        requires
            old(self).wf(),
        ensures
            final(self).wf(),
            r is Ok <==> has_key(old(self)@.entries, id@),
            r matches Ok(p) ==> p@ == updated_prompt@ && final(self)@ == (StoreState {
                entries: stored_with(old(self)@.entries, id@, updated_prompt@),
                ..old(self)@
            }),
            r matches Err(e) ==> final(self)@ == old(self)@ && is_not_found(e, id@),
            at_most_one_default(old(self)@.entries) ==> at_most_one_default(
                final(self)@.entries,
            ),
    {
        let key = String::from_str(id);
        if self.find_key(&key).is_none() {
            return Err(not_found(id));
        }
        proof {
            if at_most_one_default(self@.entries) {
                lemma_stored_with_single_default(self@.entries, id@, updated_prompt@);
            }
        }
        if updated_prompt.is_default {
            self.clear_defaults();
        }
        let r = updated_prompt.clone();
        self.put_entry(key, updated_prompt);
        Ok(r)
    }

    /// Removes the entry under `id`.  Fails, changing nothing, with the
    /// default-deletion error where that entry is the default, and with
    /// `NotFound` where no entry has key `id`.
    pub fn delete_prompt(&mut self, id: &str) -> (r: Result<(), ConfigError>)
        requires
            old(self).wf(),
        ensures
            final(self).wf(),
            r is Ok <==> has_key(old(self)@.entries, id@) && !lookup(
                old(self)@.entries,
                id@,
            ).unwrap().is_default,
            r is Ok ==> final(self)@ == (StoreState {
                entries: old(self)@.entries.remove(key_index(old(self)@.entries, id@)),
                ..old(self)@
            }),
            r is Err ==> final(self)@ == old(self)@,
            r matches Err(e) ==> if has_key(old(self)@.entries, id@) {
                is_delete_default(e)
            } else {
                is_not_found(e, id@)
            },
            at_most_one_default(old(self)@.entries) ==> at_most_one_default(
                final(self)@.entries,
            ),
    {
        let key = String::from_str(id);
        match self.find_key(&key) {
            None => Err(not_found(id)),
            Some(i) => {
                if self.entries[i].1.is_default {
                    return Err(delete_default_refused());
                }
                let ghost s = self@.entries;
                let _ = self.entries.remove(i);
                proof {
                    lemma_remove_keys(s, i as int);
                    assert(self@.entries =~= s.remove(i as int));
                    assert forall|a: int, b: int|
                        0 <= a < self@.entries.len() && 0 <= b < self@.entries.len()
                            && #[trigger] self@.entries[a].1.is_default
                            && #[trigger] self@.entries[b].1.is_default
                            && at_most_one_default(s) implies a == b by {
                        let sa = if a < i { a } else { a + 1 };
                        let sb = if b < i { b } else { b + 1 };
                        assert(self@.entries[a] == s[sa] && self@.entries[b] == s[sb]);
                    }
                }
                Ok(())
            },
        }
    }

    /// Makes the entry under `id` the only default.  Fails with `NotFound`,
    /// changing nothing, where no entry has key `id`.
    pub fn set_default_prompt(&mut self, id: &str) -> (r: Result<(), ConfigError>)
        requires
            old(self).wf(),
        ensures
            final(self).wf(),
            r is Ok <==> has_key(old(self)@.entries, id@),
            r is Ok ==> final(self)@ == (StoreState {
                entries: defaulted(old(self)@.entries, id@),
                ..old(self)@
            }),
            r matches Err(e) ==> final(self)@ == old(self)@ && is_not_found(e, id@),
            r is Ok ==> at_most_one_default(final(self)@.entries),
    {
        let key = String::from_str(id);
        match self.find_key(&key) {
            None => Err(not_found(id)),
            Some(i) => {
                let ghost s = self@.entries;
                proof {
                    lemma_defaulted_single_default(s, id@);
                    lemma_cleared_keys(s, id@);
                }
                self.clear_defaults();
                let mut p = self.entries[i].1.clone();
                p.is_default = true;
                let k = self.entries[i].0.clone();
                self.entries[i] = (k, p);
                assert(self@.entries =~= defaulted(s, id@));
                Ok(())
            },
        }
    }
}


impl SystemPromptManager {
    fn first_where(&self, sel: &Select) -> (r: Option<SystemPrompt>)
        requires
            self.wf(),
        ensures
            opt_prompt_view(r) == first_match(self@.entries, sel@),
    {
        let ghost s = self@.entries;
        let mut i: usize = 0;
        while i < self.entries.len()
            invariant
                s == self@.entries,
                i <= s.len(),
                first_match(s, sel@) == first_from(s, sel@, i as int),
            decreases s.len() - i,
        {
            assert(s[i as int].1 == self.entries@[i as int].1@);
            if selects(sel, &self.entries[i].1) {
                return Some(self.entries[i].1.clone());
            }
            i = i + 1;
        }
        None
    }

    /// The first prompt, in collection order, whose name is `name`.
    pub fn get_prompt_by_name(&self, name: &str) -> (r: Option<SystemPrompt>)
        requires
            self.wf(),
        ensures
            opt_prompt_view(r) == first_match(self@.entries, Criterion::Name(name@)),
    {
        self.first_where(&Select::Name(String::from_str(name)))
    }

    /// The first prompt, in collection order, marked as the default.
    pub fn get_default_prompt(&self) -> (r: Option<SystemPrompt>)
        requires
            self.wf(),
        ensures
            opt_prompt_view(r) == first_match(self@.entries, Criterion::Default),
    {
        self.first_where(&Select::Default)
    }

    /// The prompt for `model`: an exact match of the target model, else a
    /// partial match in either direction, else the default.
    pub fn get_prompt_for_model(&self, model: &str) -> (r: Option<SystemPrompt>)
        requires
            self.wf(),
        ensures
            opt_prompt_view(r) == model_choice(self@.entries, model@),
    {
        let m = String::from_str(model);
        if let Some(p) = self.first_where(&Select::ModelExact(m.clone())) {
            return Some(p);
        }
        if let Some(p) = self.first_where(&Select::ModelPartial(m)) {
            return Some(p);
        }
        self.get_default_prompt()
    }

    /// The prompt with id `identifier`, else the first prompt named
    /// `identifier`.
    pub fn find_prompt(&self, identifier: &str) -> (r: Option<SystemPrompt>)
        requires
            self.wf(),
        ensures
            opt_prompt_view(r) == match lookup(self@.entries, identifier@) {
                Some(p) => Some(p),
                None => first_match(self@.entries, Criterion::Name(identifier@)),
            },
    {
        match self.get_prompt(identifier) {
            Some(p) => Some(p),
            None => self.get_prompt_by_name(identifier),
        }
    }
}


impl SystemPromptManager {
    /// Every prompt that carries at least one of `tags`, in collection order;
    /// none for an empty `tags`.
    pub fn search_by_tags(&self, tags: &[String]) -> (r: Vec<SystemPrompt>)
        requires
            self.wf(),
        ensures
            prompts_view(r@) == tagged(self@.entries, strings_view(tags@)),
            tags@.len() == 0 ==> r@.len() == 0,
    {
        let ghost s = self@.entries;
        let ghost q = strings_view(tags@);
        let mut r: Vec<SystemPrompt> = Vec::new();
        let mut i: usize = 0;
        while i < self.entries.len()
            invariant
                s == self@.entries,
                q == strings_view(tags@),
                i <= s.len(),
                prompts_view(r@) == tagged_upto(s, q, i as int),
            decreases s.len() - i,
        {
            assert(s[i as int].1 == self.entries@[i as int].1@);
            if has_any_tag(&self.entries[i].1, tags) {
                r.push(self.entries[i].1.clone());
                assert(prompts_view(r@) =~= tagged_upto(s, q, i + 1));
            }
            i = i + 1;
        }
        proof {
            if tags@.len() == 0 {
                lemma_tagged_empty_query(s, q, s.len() as int);
            }
        }
        r
    }

    /// Every prompt of the collection, ascending by name.
    pub fn list_prompts(&self) -> (r: Vec<SystemPrompt>)
        requires
            self.wf(),
        ensures
            sorted_by_name(prompts_view(r@)),
            prompts_view(r@).to_multiset() == values(self@.entries).to_multiset(),
    {
        let ghost vs = values(self@.entries);
        let mut r: Vec<SystemPrompt> = Vec::new();
        let mut i: usize = 0;
        assert(prompts_view(r@) =~= vs.subrange(0, 0));
        while i < self.entries.len()
            invariant
                vs == values(self@.entries),
                i <= vs.len(),
                sorted_by_name(prompts_view(r@)),
                prompts_view(r@).to_multiset() == vs.subrange(0, i as int).to_multiset(),
            decreases vs.len() - i,
        {
            let p = self.entries[i].1.clone();
            assert(p@ == vs[i as int]);
            let ghost old_r = prompts_view(r@);
            let mut j: usize = 0;
            while j < r.len() && str_le(r[j].name.as_str(), p.name.as_str())
                invariant
                    old_r == prompts_view(r@),
                    j <= r@.len(),
                    forall|k: int| 0 <= k < j ==> name_le(#[trigger] old_r[k].name, p@.name),
                decreases r@.len() - j,
            {
                j = j + 1;
            }
            proof {
                if j < r@.len() {
                    lemma_name_le_total(old_r[j as int].name, p@.name);
                }
            }
            r.insert(j, p);
            proof {
                let nr = prompts_view(r@);
                assert(nr =~= old_r.insert(j as int, p@));
                assert forall|a: int, b: int| 0 <= a < b < nr.len() implies name_le(
                    #[trigger] nr[a].name,
                    #[trigger] nr[b].name,
                ) by {
                    if b < j {
                    } else if b == j {
                    } else if a < j {
                        assert(nr[b] == old_r[b - 1]);
                    } else if a == j {
                        assert(nr[b] == old_r[b - 1]);
                        if b - 1 > j {
                            assert(name_le(old_r[j as int].name, old_r[b - 1].name));
                            lemma_name_le_trans(p@.name, old_r[j as int].name, old_r[b - 1].name);
                        }
                    } else {
                        assert(nr[a] == old_r[a - 1] && nr[b] == old_r[b - 1]);
                    }
                }
                assert(nr.to_multiset() == old_r.insert(j as int, p@).to_multiset());
                vstd::seq_lib::to_multiset_insert(old_r, j as int, p@);
                vstd::seq_lib::to_multiset_build(vs.subrange(0, i as int), p@);
                assert(vs.subrange(0, i + 1) =~= vs.subrange(0, i as int).push(p@));
                assert(vs.subrange(0, i + 1).to_multiset() == vs.subrange(0, i as int).push(
                    p@,
                ).to_multiset());
            }
            i = i + 1;
        }
        assert(vs.subrange(0, vs.len() as int) =~= vs);
        r
    }
}


impl SystemPromptManager {
    /// Replaces the collection with the two built-in prompts, with the given
    /// contents.  Should the two fresh ids coincide, the second gets a "-1"
    /// suffix, so that both prompts are kept.
    pub fn create_default_prompts(&mut self, default_content: String, model_content: String)
        requires
            old(self).wf(),
        ensures
            final(self).wf(),
            final(self)@.has_file,
            seeded(final(self)@.entries, default_content@, model_content@),
            at_most_one_default(final(self)@.entries),
    {
        let default_prompt = SystemPrompt::new(String::from_str("Default"), default_content)
            .with_description(String::from_str("Default Goose system prompt"))
            .with_tags(vec![String::from_str("default")])
            .set_as_default();
        let mut model_prompt = SystemPrompt::new(String::from_str("GPT-4.1 Optimized"), model_content)
            .with_description(String::from_str("System prompt optimized for GPT-4.1 models"))
            .with_model_specific(String::from_str("gpt-4.1"))
            .with_tags(vec![String::from_str("gpt-4"), String::from_str("optimized")]);
        assert(default_prompt@.tags =~= seq!["default"@]);
        assert(model_prompt@.tags =~= seq!["gpt-4"@, "optimized"@]);
        if model_prompt.id == default_prompt.id {
            let drawn = model_prompt.id.clone();
            model_prompt.id = drawn.concat("-1");
            proof {
                reveal_strlit("-1");
                assert(model_prompt@.id.len() == default_prompt@.id.len() + 2);
            }
        }
        assert(model_prompt@.id != default_prompt@.id);
        let ghost d = default_prompt@;
        let ghost g = model_prompt@;
        self.entries = Vec::new();
        self.has_file = false;
        assert(self@.entries =~= Seq::<EntryView>::empty());
        let dk = default_prompt.id.clone();
        self.put_entry(dk, default_prompt);
        assert(self@.entries =~= seq![(d.id, d)]);
        let gk = model_prompt.id.clone();
        self.put_entry(gk, model_prompt);
        proof {
            let s = seq![(d.id, d)];
            assert(!has_key(s, g.id));
            assert(self@.entries =~= seq![(d.id, d), (g.id, g)]);
        }
    }

    /// Seeds a store that has no collection file yet with the built-in
    /// prompts; a store that has one is left unchanged.
    pub fn initialize(&mut self, default_content: String, model_content: String)
        requires
            old(self).wf(),
        ensures
            final(self).wf(),
            initialized(old(self)@, final(self)@, default_content@, model_content@),
            at_most_one_default(old(self)@.entries) ==> at_most_one_default(
                final(self)@.entries,
            ),
    {
        if !self.has_file {
            self.create_default_prompts(default_content, model_content);
        }
    }

    /// Whether the collection file exists.
    pub fn has_file(&self) -> (r: bool)
        ensures
            r == self@.has_file,
    {
        self.has_file
    }

    /// A store whose collection file holds `entries`, in that order.  Fails
    /// with `DeserializeError` where two entries share a key.
    pub fn from_stored(entries: Vec<(String, SystemPrompt)>) -> (r: Result<Self, ConfigError>)
        ensures
            r is Ok <==> keys_unique(entries_view(entries@)),
            r matches Ok(m) ==> m.wf() && m@ == (StoreState {
                has_file: true,
                entries: entries_view(entries@),
            }),
            r is Err ==> r matches Err(ConfigError::DeserializeError(_)),
    {
        let ghost s = entries_view(entries@);
        let mut i: usize = 0;
        while i < entries.len()
            invariant
                s == entries_view(entries@),
                i <= s.len(),
                forall|a: int, b: int| 0 <= a < b < s.len() && a < i ==> #[trigger] s[a].0 != #[trigger] s[b].0,
            decreases s.len() - i,
        {
            let mut j: usize = i + 1;
            while j < entries.len()
                invariant
                    s == entries_view(entries@),
                    i < s.len(),
                    i + 1 <= j <= s.len(),
                    forall|a: int, b: int| 0 <= a < b < s.len() && a < i ==> #[trigger] s[a].0 != #[trigger] s[b].0,
                    forall|b: int| i < b < j ==> s[i as int].0 != #[trigger] s[b].0,
                decreases s.len() - j,
            {
                if entries[i].0 == entries[j].0 {
                    assert(s[i as int].0 == s[j as int].0);
                    return Err(ConfigError::DeserializeError(String::from_str("duplicate prompt id")));
                }
                j = j + 1;
            }
            i = i + 1;
        }
        Ok(SystemPromptManager { has_file: true, entries })
    }

    /// A copy of the collection's entries, in order; none where the file does
    /// not exist.
    pub fn load_prompts(&self) -> (r: Vec<(String, SystemPrompt)>)
        requires
            self.wf(),
        ensures
            entries_view(r@) == self@.entries,
    {
        let mut r: Vec<(String, SystemPrompt)> = Vec::new();
        let mut i: usize = 0;
        while i < self.entries.len()
            invariant
                i <= self.entries@.len(),
                entries_view(r@) == self@.entries.subrange(0, i as int),
            decreases self.entries@.len() - i,
        {
            let k = self.entries[i].0.clone();
            let p = self.entries[i].1.clone();
            assert((k@, p@) == self@.entries[i as int]);
            let ghost before = r@;
            r.push((k, p));
            assert(entries_view(r@) =~= entries_view(before).push((k@, p@)));
            assert(entries_view(r@) =~= self@.entries.subrange(0, i + 1));
            i = i + 1;
        }
        assert(self@.entries.subrange(0, i as int) =~= self@.entries);
        r
    }

    /// Adds a new prompt named `name` holding `content` read from
    /// `file_path`, described as imported from that path.
    pub fn import_from_file(&mut self, file_path: &str, name: String, content: String) -> (r:
        SystemPrompt)
        requires
            old(self).wf(),
        ensures
            final(self).wf(),
            final(self)@.has_file,
            r@.name == name@,
            r@.content == content@,
            r@.description == Some("Imported from "@ + file_path@),
            !r@.is_default,
            r@.tags == Seq::<Seq<char>>::empty(),
            r@.model_specific == None::<Seq<char>>,
            final(self)@.entries == stored_with(old(self)@.entries, r@.id, r@),
    {
        let description = String::from_str("Imported from ").concat(file_path);
        let prompt = SystemPrompt::new(name, content).with_description(description);
        self.create_prompt(prompt)
    }

    /// The content to write out for the prompt under `id`.  Fails with
    /// `NotFound` where no entry has key `id`.
    pub fn export_to_file(&self, id: &str) -> (r: Result<String, ConfigError>)
        requires
            self.wf(),
        ensures
            r is Ok <==> has_key(self@.entries, id@),
            r matches Ok(c) ==> c@ == lookup(self@.entries, id@).unwrap().content,
            r matches Err(e) ==> is_not_found(e, id@),
    {
        match self.get_prompt(id) {
            Some(p) => Ok(p.content),
            None => Err(not_found(id)),
        }
    }
}

impl Default for SystemPromptManager {
    fn default() -> (r: Self)
        ensures
            r.wf(),
            !r@.has_file,
            r@.entries == Seq::<EntryView>::empty(),
    {
        SystemPromptManager::new()
    }
}

} // verus!
