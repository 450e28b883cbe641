//! Runtime translation: languages, translation tables and lookup with a
//! fallback language.
use vstd::prelude::*;
use vstd::string::*;

use crate::text::{chars_of, replace_char, replace_seq, str_equal, string_from_chars};

verus! {

/// The active language, as a BCP-47-like tag ("en-US").
#[derive(Debug, Clone, PartialEq, Eq)]
pub struct MaterialLanguage {
    pub tag: String,
}

/// The tag the environment value names (or "en-US" when none is set),
/// with `_` read as `-`.
pub open spec fn env_language_spec(found: Option<Seq<char>>) -> Seq<char> {
    replace_seq(
        match found {
            Some(t) => t,
            None => "en-US"@,
        },
        '_',
        '-',
    )
}

impl MaterialLanguage {
    pub fn new(tag: &str) -> (l: Self)
        ensures
            l.tag@ == tag@,
    {
        Self { tag: String::from_str(tag) }
    }

    /// The language named by the first set environment variable among
    /// LANG, LC_ALL and LC_MESSAGES (`found`), or "en-US".
    pub fn from_env_value(found: Option<&str>) -> (l: Self)
        ensures
            l.tag@ == env_language_spec(
                match found {
                    Some(t) => Some(t@),
                    None => None,
                },
            ),
    {
        let v = match found {
            Some(t) => chars_of(t),
            None => chars_of("en-US"),
        };
        let r = replace_char(&v, '_', '-');
        Self { tag: string_from_chars(&r) }
    }
}

/// A language for one subtree instead of the global one.
#[derive(Debug, Clone, PartialEq, Eq)]
pub struct MaterialLanguageOverride {
    pub tag: String,
}

impl MaterialLanguageOverride {
    pub fn new(tag: &str) -> (l: Self)
        ensures
            l.tag@ == tag@,
    {
        Self { tag: String::from_str(tag) }
    }
}

/// A translation table: (key, text) entries; where a key repeats, the
/// later entry wins, as inserting into a map in order does.
pub open spec fn table_lookup(entries: Seq<(Seq<char>, Seq<char>)>, key: Seq<char>) -> Option<
    Seq<char>,
>
    decreases entries.len(),
{
    if entries.len() == 0 {
        None
    } else if entries.last().0 == key {
        Some(entries.last().1)
    } else {
        table_lookup(entries.drop_last(), key)
    }
}

/// The plain contents of a list of string pairs.
pub open spec fn pairs_view(v: Seq<(String, String)>) -> Seq<(Seq<char>, Seq<char>)> {
    v.map_values(|p: (String, String)| (p.0@, p.1@))
}

/// One language's translations, as loaded from a language file.
#[derive(Debug, Clone, PartialEq, Eq)]
pub struct MaterialTranslations {
    pub language: String,
    pub strings: Vec<(String, String)>,
}

/// The bundles of a translation store: languages with their tables.
pub open spec fn bundles_view(v: Seq<(String, Vec<(String, String)>)>) -> Seq<
    (Seq<char>, Seq<(Seq<char>, Seq<char>)>),
> {
    v.map_values(|b: (String, Vec<(String, String)>)| (b.0@, pairs_view(b.1@)))
}

/// The table of the first bundle for a language.
pub open spec fn bundle_lookup(
    bundles: Seq<(Seq<char>, Seq<(Seq<char>, Seq<char>)>)>,
    language: Seq<char>,
) -> Option<Seq<(Seq<char>, Seq<char>)>>
    decreases bundles.len(),
{
    if bundles.len() == 0 {
        None
    } else if bundles[0].0 == language {
        Some(bundles[0].1)
    } else {
        bundle_lookup(bundles.drop_first(), language)
    }
}

/// A key's text in a language's table.
pub open spec fn lookup_in(
    bundles: Seq<(Seq<char>, Seq<(Seq<char>, Seq<char>)>)>,
    language: Seq<char>,
    key: Seq<char>,
) -> Option<Seq<char>> {
    match bundle_lookup(bundles, language) {
        Some(t) => table_lookup(t, key),
        None => None,
    }
}

/// Translation with fallback: the language's text, or else (when a
/// fallback language is set) the fallback language's text.
pub open spec fn translate_spec(
    bundles: Seq<(Seq<char>, Seq<(Seq<char>, Seq<char>)>)>,
    fallback: Seq<char>,
    language: Seq<char>,
    key: Seq<char>,
) -> Option<Seq<char>> {
    match lookup_in(bundles, language, key) {
        Some(t) => Some(t),
        None => if fallback.len() == 0 {
            None
        } else {
            lookup_in(bundles, fallback, key)
        },
    }
}

/// The bundles after storing `strings` for `language`: the first bundle
/// of that language is replaced, or a new one is appended.
pub open spec fn bundles_after_insert(
    bundles: Seq<(Seq<char>, Seq<(Seq<char>, Seq<char>)>)>,
    language: Seq<char>,
    strings: Seq<(Seq<char>, Seq<char>)>,
) -> Seq<(Seq<char>, Seq<(Seq<char>, Seq<char>)>)>
    decreases bundles.len(),
{
    if bundles.len() == 0 {
        seq![(language, strings)]
    } else if bundles[0].0 == language {
        bundles.update(0, (language, strings))
    } else {
        seq![bundles[0]] + bundles_after_insert(bundles.drop_first(), language, strings)
    }
}

/// The translation store.
#[derive(Debug, Clone, PartialEq, Eq)]
pub struct MaterialI18n {
    bundles: Vec<(String, Vec<(String, String)>)>,
    pub fallback_language: String,
    revision: u64,
}

impl MaterialI18n {
    /// The store's bundles as plain values.
    pub closed spec fn spec_bundles(&self) -> Seq<(Seq<char>, Seq<(Seq<char>, Seq<char>)>)> {
        bundles_view(self.bundles@)
    }

    /// The fallback language.
    pub closed spec fn spec_fallback(&self) -> Seq<char> {
        self.fallback_language@
    }

    /// The store's revision counter.
    pub closed spec fn spec_revision(&self) -> u64 {
        self.revision
    }

    /// How many bundle insertions have happened (wrapping).
    pub fn revision(&self) -> (r: u64)
        ensures
            r == self.spec_revision(),
    {
        self.revision
    }

    /// The languages that have a bundle, in insertion order.
    pub fn bundle_languages(&self) -> (langs: Vec<String>)
        ensures
            langs@.len() == self.spec_bundles().len(),
            forall|i: int|
                0 <= i < langs@.len() ==> #[trigger] langs@[i]@ == self.spec_bundles()[i].0,
    {
        let mut langs: Vec<String> = Vec::new();
        let mut i: usize = 0;
        while i < self.bundles.len()
            invariant
                i <= self.bundles@.len(),
                langs@.len() == i,
                forall|j: int| 0 <= j < i ==> #[trigger] langs@[j]@ == self.bundles@[j].0@,
            decreases self.bundles.len() - i,
        {
            langs.push(self.bundles[i].0.clone());
            i = i + 1;
        }
        langs
    }

    /// Stores a language's table, replacing an earlier one, and bumps the
    /// revision.
    pub fn insert_bundle(&mut self, language: String, strings: Vec<(String, String)>)
        ensures
            final(self).spec_bundles() == bundles_after_insert(
                old(self).spec_bundles(),
                language@,
                pairs_view(strings@),
            ),
            final(self).spec_revision() == old(self).spec_revision().wrapping_add(1),
            final(self).spec_fallback() == old(self).spec_fallback(),
    {
        let ghost before = self.spec_bundles();
        let ghost new_strings = pairs_view(strings@);
        let mut i: usize = 0;
        while i < self.bundles.len() && !str_equal(self.bundles[i].0.as_str(), language.as_str())
            invariant
                i <= self.bundles@.len(),
                self.bundles@ == old(self).bundles@,
                before == bundles_view(self.bundles@),
                forall|j: int| 0 <= j < i ==> #[trigger] self.bundles@[j].0@ != language@,
            decreases self.bundles.len() - i,
        {
            i = i + 1;
        }
        proof {
            assert forall|j: int| 0 <= j < i implies #[trigger] before[j].0 != language@ by {
                assert(before[j].0 == self.bundles@[j].0@);
            }
            if i < self.bundles@.len() {
                assert(before[i as int].0 == self.bundles@[i as int].0@);
            }
            lemma_insert_position(before, language@, new_strings, i as int);
        }
        if i < self.bundles.len() {
            self.bundles.set(i, (language, strings));
            proof {
                assert(bundles_view(self.bundles@) =~= before.update(i as int, (language@, new_strings)));
            }
        } else {
            self.bundles.push((language, strings));
            proof {
                assert(bundles_view(self.bundles@) =~= before.push((language@, new_strings)));
            }
        }
        self.revision = self.revision.wrapping_add(1);
    }

    /// The text of `key` in `language`, falling back to the fallback
    /// language when that is set.
    pub fn translate(&self, language: &str, key: &str) -> (r: Option<String>)
        ensures
            match r {
                Some(t) => translate_spec(
                    self.spec_bundles(),
                    self.spec_fallback(),
                    language@,
                    key@,
                ) == Some(t@),
                None => translate_spec(
                    self.spec_bundles(),
                    self.spec_fallback(),
                    language@,
                    key@,
                ) is None,
            },
    {
        match self.lookup(language, key) {
            Some(t) => Some(t),
            None => {
                if self.fallback_language.as_str().is_empty() {
                    None
                } else {
                    self.lookup(self.fallback_language.as_str(), key)
                }
            },
        }
    }

    fn lookup(&self, language: &str, key: &str) -> (r: Option<String>)
        ensures
            match r {
                Some(t) => lookup_in(self.spec_bundles(), language@, key@) == Some(t@),
                None => lookup_in(self.spec_bundles(), language@, key@) is None,
            },
    {
        let ghost bv = self.spec_bundles();
        let mut i: usize = 0;
        proof {
            assert(bv.subrange(0, bv.len() as int) =~= bv);
        }
        while i < self.bundles.len()
            invariant
                i <= self.bundles@.len(),
                bv == bundles_view(self.bundles@),
                bundle_lookup(bv, language@) == bundle_lookup(
                    bv.subrange(i as int, bv.len() as int),
                    language@,
                ),
            decreases self.bundles.len() - i,
        {
            let ghost rest = bv.subrange(i as int, bv.len() as int);
            proof {
                assert(rest.drop_first() =~= bv.subrange(i + 1, bv.len() as int));
            }
            if str_equal(self.bundles[i].0.as_str(), language) {
                return table_get(&self.bundles[i].1, key);
            }
            i = i + 1;
        }
        None
    }
}

/// Where storing a bundle for `language` lands when the first `i` bundles
/// have other languages and bundle `i` (if any) has this one.
proof fn lemma_insert_position(
    bundles: Seq<(Seq<char>, Seq<(Seq<char>, Seq<char>)>)>,
    language: Seq<char>,
    strings: Seq<(Seq<char>, Seq<char>)>,
    i: int,
)
    requires
        0 <= i <= bundles.len(),
        forall|j: int| 0 <= j < i ==> #[trigger] bundles[j].0 != language,
    ensures
        i < bundles.len() && bundles[i].0 == language ==> bundles_after_insert(
            bundles,
            language,
            strings,
        ) == bundles.update(i, (language, strings)),
        i == bundles.len() ==> bundles_after_insert(bundles, language, strings) == bundles.push(
            (language, strings),
        ),
    decreases i,
{
    if i > 0 {
        let rest = bundles.drop_first();
        assert forall|j: int| 0 <= j < i - 1 implies #[trigger] rest[j].0 != language by {
            assert(rest[j] == bundles[j + 1]);
        }
        lemma_insert_position(rest, language, strings, i - 1);
        if i < bundles.len() && bundles[i].0 == language {
            assert(rest[i - 1] == bundles[i]);
            assert(seq![bundles[0]] + rest.update(i - 1, (language, strings)) =~= bundles.update(
                i,
                (language, strings),
            ));
        }
        if i == bundles.len() {
            assert(seq![bundles[0]] + rest.push((language, strings)) =~= bundles.push(
                (language, strings),
            ));
        }
    }
}

/// The text of `key` in a table (the last entry with that key).
fn table_get(entries: &Vec<(String, String)>, key: &str) -> (r: Option<String>)
    ensures
        match r {
            Some(t) => table_lookup(pairs_view(entries@), key@) == Some(t@),
            None => table_lookup(pairs_view(entries@), key@) is None,
        },
{
    let ghost pv = pairs_view(entries@);
    let mut i: usize = entries.len();
    proof {
        assert(pv.subrange(0, pv.len() as int) =~= pv);
    }
    while i > 0
        invariant
            i <= entries@.len(),
            pv == pairs_view(entries@),
            table_lookup(pv, key@) == table_lookup(pv.subrange(0, i as int), key@),
        decreases i,
    {
        let ghost pre = pv.subrange(0, i as int);
        proof {
            assert(pre.drop_last() =~= pv.subrange(0, i - 1));
        }
        if str_equal(entries[i - 1].0.as_str(), key) {
            return Some(entries[i - 1].1.clone());
        }
        i = i - 1;
    }
    None
}

impl Default for MaterialI18n {
    /// No bundles, fallback "en-US", revision 0.
    fn default() -> (r: Self)
        ensures
            r.spec_bundles().len() == 0,
            r.spec_fallback() == "en-US"@,
            r.spec_revision() == 0,
    {
        let r = Self { bundles: Vec::new(), fallback_language: String::from_str("en-US"), revision: 0 };
        proof {
            assert(r.spec_bundles() =~= Seq::empty());
        }
        r
    }
}

/// After a table is stored for a language, looking a key up in that
/// language finds the table's text for it whenever the table has one; the
/// other languages' tables are unchanged.
pub proof fn lemma_insert_then_lookup(
    bundles: Seq<(Seq<char>, Seq<(Seq<char>, Seq<char>)>)>,
    language: Seq<char>,
    strings: Seq<(Seq<char>, Seq<char>)>,
    other: Seq<char>,
)
    ensures
        bundle_lookup(bundles_after_insert(bundles, language, strings), language) == Some(strings),
        other != language ==> bundle_lookup(bundles_after_insert(bundles, language, strings), other)
            == bundle_lookup(bundles, other),
    decreases bundles.len(),
{
    let after = bundles_after_insert(bundles, language, strings);
    if bundles.len() > 0 && bundles[0].0 != language {
        lemma_insert_then_lookup(bundles.drop_first(), language, strings, other);
        assert(after.drop_first() =~= bundles_after_insert(bundles.drop_first(), language, strings));
        assert(after[0] == bundles[0]);
    } else if bundles.len() > 0 {
        assert(after.drop_first() =~= bundles.drop_first());
        if other != language {
            assert(bundle_lookup(after, other) == bundle_lookup(after.drop_first(), other));
            assert(bundle_lookup(bundles, other) == bundle_lookup(bundles.drop_first(), other));
        }
    } else {
        assert(after.drop_first() =~= Seq::<(Seq<char>, Seq<(Seq<char>, Seq<char>)>)>::empty());
        if other != language {
            assert(bundle_lookup(after, other) == bundle_lookup(after.drop_first(), other));
        }
    }
}

/// A text node's binding to a translation key, with an optional default.
#[derive(Debug, Clone, PartialEq, Eq)]
pub struct LocalizedText {
    pub key: String,
    pub default: Option<String>,
}

impl LocalizedText {
    pub fn new(key: &str) -> (t: Self)
        ensures
            t.key@ == key@,
            t.default is None,
    {
        Self { key: String::from_str(key), default: None }
    }

    pub fn with_default(self, default: &str) -> (t: Self)
        ensures
            t.key == self.key,
            t.default matches Some(d) && d@ == default@,
    {
        let mut this = self;
        this.default = Some(String::from_str(default));
        this
    }
}

/// The text a binding shows: the translation, else its default, else the key.
pub fn resolve_localized_text(i18n: &MaterialI18n, language: &str, binding: &LocalizedText) -> (s:
    String)
    ensures
        s@ == match translate_spec(
            i18n.spec_bundles(),
            i18n.spec_fallback(),
            language@,
            binding.key@,
        ) {
            Some(t) => t,
            None => match binding.default {
                Some(d) => d@,
                None => binding.key@,
            },
        },
{
    match i18n.translate(language, binding.key.as_str()) {
        Some(t) => t,
        None => match &binding.default {
            Some(d) => d.clone(),
            None => binding.key.clone(),
        },
    }
}

/// The first override found walking from a node up through its ancestors.
pub open spec fn first_override(chain: Seq<Option<String>>) -> Option<Seq<char>>
    decreases chain.len(),
{
    if chain.len() == 0 {
        None
    } else {
        match chain[0] {
            Some(t) => Some(t@),
            None => first_override(chain.drop_first()),
        }
    }
}

/// The language of a node: the nearest override on the node or its
/// ancestors (`chain`, node first), else the global language.
pub fn resolve_language_tag(chain: &Vec<Option<String>>, global: &MaterialLanguage) -> (tag: String)
    ensures
        tag@ == match first_override(chain@) {
            Some(t) => t,
            None => global.tag@,
        },
{
    let mut i: usize = 0;
    proof {
        assert(chain@.subrange(0, chain@.len() as int) =~= chain@);
    }
    while i < chain.len()
        invariant
            i <= chain@.len(),
            first_override(chain@) == first_override(chain@.subrange(i as int, chain@.len() as int)),
        decreases chain.len() - i,
    {
        let ghost rest = chain@.subrange(i as int, chain@.len() as int);
        proof {
            assert(rest.drop_first() =~= chain@.subrange(i + 1, chain@.len() as int));
        }
        match &chain[i] {
            Some(t) => {
                return t.clone();
            },
            None => {},
        }
        i = i + 1;
    }
    global.tag.clone()
}

} // verus!
