//! The mathematical model of a prompt collection: entries as (key, prompt)
//! pairs in order, what each store operation makes of them, and the laws
//! they obey.

use vstd::prelude::*;

use crate::prompt::{PromptView, SystemPrompt};
use crate::text::{is_substring, name_le};

verus! {

/// The value of one entry of a collection: its key and its prompt.
pub type EntryView = (Seq<char>, PromptView);

pub open spec fn entries_view(v: Seq<(String, SystemPrompt)>) -> Seq<EntryView> {
    v.map_values(|e: (String, SystemPrompt)| (e.0@, e.1@))
}

/// No two entries share a key.
pub open spec fn keys_unique(s: Seq<EntryView>) -> bool {
    forall|i: int, j: int| 0 <= i < j < s.len() ==> #[trigger] s[i].0 != #[trigger] s[j].0
}

/// No two entries are marked as the default.
pub open spec fn at_most_one_default(s: Seq<EntryView>) -> bool {
    forall|i: int, j: int|
        0 <= i < s.len() && 0 <= j < s.len() && #[trigger] s[i].1.is_default
            && #[trigger] s[j].1.is_default ==> i == j
}

pub open spec fn has_key(s: Seq<EntryView>, k: Seq<char>) -> bool {
    exists|i: int| 0 <= i < s.len() && #[trigger] s[i].0 == k
}

/// The position of the entry with key `k` (meaningful when `has_key(s, k)`).
pub open spec fn key_index(s: Seq<EntryView>, k: Seq<char>) -> int {
    choose|i: int| 0 <= i < s.len() && #[trigger] s[i].0 == k
}

/// The prompt stored under `k`, if any.
pub open spec fn lookup(s: Seq<EntryView>, k: Seq<char>) -> Option<PromptView> {
    if has_key(s, k) {
        Some(s[key_index(s, k)].1)
    } else {
        None
    }
}

pub open spec fn undefault(e: EntryView) -> EntryView {
    (e.0, PromptView { is_default: false, ..e.1 })
}

/// Every entry with its default mark cleared.
pub open spec fn cleared(s: Seq<EntryView>) -> Seq<EntryView> {
    s.map_values(|e: EntryView| undefault(e))
}

/// `s` with the prompt under `k` replaced by `p`, or `(k, p)` appended where
/// no entry has key `k`.
pub open spec fn put(s: Seq<EntryView>, k: Seq<char>, p: PromptView) -> Seq<EntryView> {
    if has_key(s, k) {
        s.update(key_index(s, k), (k, p))
    } else {
        s.push((k, p))
    }
}

/// The collection after storing `p` under `k`: where `p` is the default,
/// every other entry first loses its default mark.
pub open spec fn stored_with(s: Seq<EntryView>, k: Seq<char>, p: PromptView) -> Seq<EntryView> {
    if p.is_default {
        put(cleared(s), k, p)
    } else {
        put(s, k, p)
    }
}

/// The collection after making the entry under `k` the only default.
pub open spec fn defaulted(s: Seq<EntryView>, k: Seq<char>) -> Seq<EntryView> {
    let i = key_index(s, k);
    cleared(s).update(i, (k, PromptView { is_default: true, ..s[i].1 }))
}

/// The value of a store: whether its collection file exists, and the entries
/// of that collection in order.
pub ghost struct StoreState {
    pub has_file: bool,
    pub entries: Seq<EntryView>,
}

pub(crate) proof fn lemma_index_is_key_index(s: Seq<EntryView>, k: Seq<char>, i: int)
    requires
        keys_unique(s),
        0 <= i < s.len(),
        s[i].0 == k,
    ensures
        has_key(s, k),
        key_index(s, k) == i,
{
    assert(has_key(s, k));
    let j = key_index(s, k);
    if j < i {
        assert(s[j].0 != s[i].0);
    } else if i < j {
        assert(s[i].0 != s[j].0);
    }
}

pub(crate) proof fn lemma_cleared_keys(s: Seq<EntryView>, k: Seq<char>)
    requires
        keys_unique(s),
    ensures
        keys_unique(cleared(s)),
        has_key(cleared(s), k) == has_key(s, k),
        has_key(s, k) ==> key_index(cleared(s), k) == key_index(s, k),
        at_most_one_default(cleared(s)),
{
    let c = cleared(s);
    assert forall|i: int, j: int| 0 <= i < j < c.len() implies #[trigger] c[i].0 != #[trigger] c[j].0 by {
        assert(s[i].0 != s[j].0);
    }
    if has_key(s, k) {
        let i = key_index(s, k);
        assert(c[i].0 == k);
        lemma_index_is_key_index(c, k, i);
    }
    if has_key(c, k) {
        let i = key_index(c, k);
        assert(s[i].0 == k);
    }
}

pub(crate) proof fn lemma_put_keys(s: Seq<EntryView>, k: Seq<char>, p: PromptView)
    requires
        keys_unique(s),
    ensures
        keys_unique(put(s, k, p)),
        has_key(put(s, k, p), k),
        key_index(put(s, k, p), k) == if has_key(s, k) { key_index(s, k) } else { s.len() as int },
{
    let r = put(s, k, p);
    if has_key(s, k) {
        let i = key_index(s, k);
        assert forall|a: int, b: int| 0 <= a < b < r.len() implies #[trigger] r[a].0 != #[trigger] r[b].0 by {
            if a != i && b != i {
                assert(s[a].0 != s[b].0);
            } else if a == i {
                assert(s[i].0 != s[b].0);
            } else {
                assert(s[a].0 != s[i].0);
            }
        }
        lemma_index_is_key_index(r, k, i);
    } else {
        assert forall|a: int, b: int| 0 <= a < b < r.len() implies #[trigger] r[a].0 != #[trigger] r[b].0 by {
            if b < s.len() {
                assert(s[a].0 != s[b].0);
            } else {
                assert(s[a].0 == r[a].0);
            }
        }
        lemma_index_is_key_index(r, k, s.len() as int);
    }
}

pub(crate) proof fn lemma_remove_keys(s: Seq<EntryView>, i: int)
    requires
        keys_unique(s),
        0 <= i < s.len(),
    ensures
        keys_unique(s.remove(i)),
{
    let r = s.remove(i);
    assert forall|a: int, b: int| 0 <= a < b < r.len() implies #[trigger] r[a].0 != #[trigger] r[b].0 by {
        let sa = if a < i { a } else { a + 1 };
        let sb = if b < i { b } else { b + 1 };
        assert(r[a] == s[sa] && r[b] == s[sb]);
        assert(s[sa].0 != s[sb].0);
    }
}

/// Storing a prompt keeps the collection to at most one default: a default
/// prompt demotes every other entry, and any other prompt only replaces or
/// adds one entry that is not the default.
pub proof fn lemma_stored_with_single_default(s: Seq<EntryView>, k: Seq<char>, p: PromptView)
    requires
        keys_unique(s),
        at_most_one_default(s),
    ensures
        keys_unique(stored_with(s, k, p)),
        at_most_one_default(stored_with(s, k, p)),
{
    lemma_cleared_keys(s, k);
    let base = if p.is_default { cleared(s) } else { s };
    lemma_put_keys(base, k, p);
    let r = put(base, k, p);
    let ki = key_index(r, k);
    assert(r[ki].1 == p);
    assert forall|i: int, j: int|
        0 <= i < r.len() && 0 <= j < r.len() && #[trigger] r[i].1.is_default
            && #[trigger] r[j].1.is_default implies i == j by {
        if p.is_default {
            if i != ki {
                assert(r[i] == base[i]);
                assert(!base[i].1.is_default);
            }
            if j != ki {
                assert(r[j] == base[j]);
                assert(!base[j].1.is_default);
            }
        } else {
            assert(i != ki && j != ki);
            assert(r[i] == base[i] && r[j] == base[j]);
        }
    }
}

/// Making one entry the default leaves it the only default, whatever the
/// collection held before.
pub proof fn lemma_defaulted_single_default(s: Seq<EntryView>, k: Seq<char>)
    requires
        keys_unique(s),
        has_key(s, k),
    ensures
        keys_unique(defaulted(s, k)),
        at_most_one_default(defaulted(s, k)),
        lookup(defaulted(s, k), k) == Some(PromptView { is_default: true, ..s[key_index(s, k)].1 }),
{
    lemma_cleared_keys(s, k);
    let c = cleared(s);
    let ki = key_index(s, k);
    let r = defaulted(s, k);
    assert forall|a: int, b: int| 0 <= a < b < r.len() implies #[trigger] r[a].0 != #[trigger] r[b].0 by {
        assert(r[a].0 == c[a].0 && r[b].0 == c[b].0);
        assert(c[a].0 != c[b].0);
    }
    assert forall|i: int, j: int|
        0 <= i < r.len() && 0 <= j < r.len() && #[trigger] r[i].1.is_default
            && #[trigger] r[j].1.is_default implies i == j by {
        if i != ki {
            assert(r[i] == c[i]);
        }
        if j != ki {
            assert(r[j] == c[j]);
        }
    }
    lemma_index_is_key_index(r, k, ki);
}

/// What a lookup asks of a prompt.
pub ghost enum Criterion {
    /// Its name is exactly this.
    Name(Seq<char>),
    /// It is the default.
    Default,
    /// Its target model is exactly this.
    ModelExact(Seq<char>),
    /// Its target model occurs in this model name, or this model name occurs
    /// in its target model.
    ModelPartial(Seq<char>),
}

pub open spec fn satisfies(c: Criterion, p: PromptView) -> bool {
    match c {
        Criterion::Name(n) => p.name == n,
        Criterion::Default => p.is_default,
        Criterion::ModelExact(m) => p.model_specific == Some(m),
        Criterion::ModelPartial(m) => match p.model_specific {
            Some(x) => is_substring(m, x) || is_substring(x, m),
            None => false,
        },
    }
}

/// The first prompt at position `i` or later that meets `c`.
pub open spec fn first_from(s: Seq<EntryView>, c: Criterion, i: int) -> Option<PromptView>
    decreases s.len() - i,
{
    if i < 0 || i >= s.len() {
        None
    } else if satisfies(c, s[i].1) {
        Some(s[i].1)
    } else {
        first_from(s, c, i + 1)
    }
}

/// The first prompt of the collection that meets `c`.
pub open spec fn first_match(s: Seq<EntryView>, c: Criterion) -> Option<PromptView> {
    first_from(s, c, 0)
}

/// The prompt chosen for a model name: the first whose target model equals
/// it, else the first whose target model partially matches it, else the
/// default.
pub open spec fn model_choice(s: Seq<EntryView>, model: Seq<char>) -> Option<PromptView> {
    if first_match(s, Criterion::ModelExact(model)) is Some {
        first_match(s, Criterion::ModelExact(model))
    } else if first_match(s, Criterion::ModelPartial(model)) is Some {
        first_match(s, Criterion::ModelPartial(model))
    } else {
        first_match(s, Criterion::Default)
    }
}

pub open spec fn prompts_view(v: Seq<SystemPrompt>) -> Seq<PromptView> {
    v.map_values(|p: SystemPrompt| p@)
}

/// The prompts of a collection, in order.
pub open spec fn values(s: Seq<EntryView>) -> Seq<PromptView> {
    s.map_values(|e: EntryView| e.1)
}

/// Some tag of `p` is one of `tags`.
pub open spec fn shares_tag(p: PromptView, tags: Seq<Seq<char>>) -> bool {
    exists|i: int| 0 <= i < tags.len() && p.tags.contains(#[trigger] tags[i])
}

/// The prompts among the first `n` entries that share a tag with `tags`, in
/// collection order.
pub open spec fn tagged_upto(s: Seq<EntryView>, tags: Seq<Seq<char>>, n: int) -> Seq<PromptView>
    decreases n,
{
    if n <= 0 || n > s.len() {
        Seq::empty()
    } else if shares_tag(s[n - 1].1, tags) {
        tagged_upto(s, tags, n - 1).push(s[n - 1].1)
    } else {
        tagged_upto(s, tags, n - 1)
    }
}

/// The prompts of the collection that share a tag with `tags`, in order.
pub open spec fn tagged(s: Seq<EntryView>, tags: Seq<Seq<char>>) -> Seq<PromptView> {
    tagged_upto(s, tags, s.len() as int)
}

/// Ascending by name.
pub open spec fn sorted_by_name(v: Seq<PromptView>) -> bool {
    forall|i: int, j: int| 0 <= i < j < v.len() ==> name_le(#[trigger] v[i].name, #[trigger] v[j].name)
}

/// A search by the single tag `x` selects exactly the prompts whose tags
/// contain `x`, whatever other tags they carry.
pub proof fn lemma_single_tag_query(p: PromptView, x: Seq<char>)
    ensures
        shares_tag(p, seq![x]) == p.tags.contains(x),
{
    if p.tags.contains(x) {
        assert(seq![x][0] == x);
    }
}

/// No tags to search by select no prompt.
pub proof fn lemma_tagged_empty_query(s: Seq<EntryView>, tags: Seq<Seq<char>>, n: int)
    requires
        tags.len() == 0,
    ensures
        tagged_upto(s, tags, n).len() == 0,
    decreases n,
{
    if 0 < n <= s.len() {
        lemma_tagged_empty_query(s, tags, n - 1);
    }
}

/// The built-in general prompt: named "Default", tagged "default", and the
/// default.
pub open spec fn is_default_seed(p: PromptView, content: Seq<char>) -> bool {
    &&& p.name == "Default"@
    &&& p.description == Some("Default Goose system prompt"@)
    &&& p.content == content
    &&& p.is_default
    &&& p.tags == seq!["default"@]
    &&& p.model_specific == None::<Seq<char>>
}

/// The built-in prompt for the GPT-4.1 model family.
pub open spec fn is_model_seed(p: PromptView, content: Seq<char>) -> bool {
    &&& p.name == "GPT-4.1 Optimized"@
    &&& p.description == Some("System prompt optimized for GPT-4.1 models"@)
    &&& p.content == content
    &&& !p.is_default
    &&& p.tags == seq!["gpt-4"@, "optimized"@]
    &&& p.model_specific == Some("gpt-4.1"@)
}

/// The collection holds exactly the two built-in prompts, each under its own
/// id, the general one first, and the two ids differ.
pub open spec fn seeded(s: Seq<EntryView>, default_content: Seq<char>, model_content: Seq<char>) -> bool {
    &&& s.len() == 2
    &&& s[0].0 == s[0].1.id && is_default_seed(s[0].1, default_content)
    &&& s[1].0 == s[1].1.id && is_model_seed(s[1].1, model_content)
    &&& s[0].0 != s[1].0
}

/// `after` is what initializing `before` may give: a store with a file is
/// left as it is, and one without gets a file holding the built-in prompts.
pub open spec fn initialized(
    before: StoreState,
    after: StoreState,
    default_content: Seq<char>,
    model_content: Seq<char>,
) -> bool {
    if before.has_file {
        after == before
    } else {
        after.has_file && seeded(after.entries, default_content, model_content)
    }
}

/// Initializing twice gives what initializing once gave: the second call
/// finds the file and leaves it alone, so a new store ends with exactly the
/// two built-in prompts, one of them the default, never four.
pub proof fn lemma_initialize_idempotent(
    a: StoreState,
    b: StoreState,
    c: StoreState,
    default_content: Seq<char>,
    model_content: Seq<char>,
)
    requires
        initialized(a, b, default_content, model_content),
        initialized(b, c, default_content, model_content),
    ensures
        c == b,
        !a.has_file ==> seeded(c.entries, default_content, model_content) && c.entries.len() == 2,
        !a.has_file ==> c.entries[0].1.is_default && !c.entries[1].1.is_default,
{
}

} // verus!
