//! The translation table: per-language lists of key/value entries, looked up
//! by language code and then by translation key. The first entry whose code
//! (or key) matches wins.

use vstd::prelude::*;

use crate::value::TranslationValue;

verus! {

/// One translation: a key and the value it maps to.
#[derive(Debug, Clone, PartialEq)]
pub struct TranslationEntry {
    /// The translation key.
    pub key: String,
    /// The value stored under the key.
    pub value: TranslationValue,
}

/// All translations of one language.
#[derive(Debug, Clone, PartialEq)]
pub struct LanguageEntry {
    /// The language code the entries belong to.
    pub language: String,
    /// The translations of the language.
    pub entries: Vec<TranslationEntry>,
}

/// A mapping from language code to that language's translations.
#[derive(Debug, Clone, PartialEq)]
pub struct TranslationTable {
    /// The per-language entries.
    pub languages: Vec<LanguageEntry>,
}

/// The first entry of `entries` whose key is `key`, if any.
pub open spec fn entry_lookup(entries: Seq<TranslationEntry>, key: Seq<char>) -> Option<
    TranslationValue,
>
    decreases entries.len(),
{
    if entries.len() == 0 {
        None
    } else if entries[0].key@ == key {
        Some(entries[0].value)
    } else {
        entry_lookup(entries.drop_first(), key)
    }
}

/// The first per-language entry of `langs` whose code is `lang`, if any.
pub open spec fn language_lookup(langs: Seq<LanguageEntry>, lang: Seq<char>) -> Option<
    LanguageEntry,
>
    decreases langs.len(),
{
    if langs.len() == 0 {
        None
    } else if langs[0].language@ == lang {
        Some(langs[0])
    } else {
        language_lookup(langs.drop_first(), lang)
    }
}

impl TranslationTable {
    /// The value the table holds for `key` in the language `lang`: `None`
    /// when the language has no entry at all or its entries lack the key.
    pub open spec fn spec_lookup(self, lang: Seq<char>, key: Seq<char>) -> Option<
        TranslationValue,
    > {
        match language_lookup(self.languages@, lang) {
            Some(e) => entry_lookup(e.entries@, key),
            None => None,
        }
    }
}

proof fn lemma_language_lookup_first_match(langs: Seq<LanguageEntry>, lang: Seq<char>, i: int)
    requires
        0 <= i < langs.len(),
        forall|j: int| 0 <= j < i ==> langs[j].language@ != lang,
        langs[i].language@ == lang,
    ensures
        language_lookup(langs, lang) == Some(langs[i]),
    decreases i,
{
    if i > 0 {
        lemma_language_lookup_first_match(langs.drop_first(), lang, i - 1);
    }
}

proof fn lemma_language_lookup_no_match(langs: Seq<LanguageEntry>, lang: Seq<char>)
    requires
        forall|j: int| 0 <= j < langs.len() ==> langs[j].language@ != lang,
    ensures
        language_lookup(langs, lang) is None,
    decreases langs.len(),
{
    if langs.len() > 0 {
        lemma_language_lookup_no_match(langs.drop_first(), lang);
    }
}

proof fn lemma_entry_lookup_first_match(entries: Seq<TranslationEntry>, key: Seq<char>, i: int)
    requires
        0 <= i < entries.len(),
        forall|j: int| 0 <= j < i ==> entries[j].key@ != key,
        entries[i].key@ == key,
    ensures
        entry_lookup(entries, key) == Some(entries[i].value),
    decreases i,
{
    if i > 0 {
        lemma_entry_lookup_first_match(entries.drop_first(), key, i - 1);
    }
}

proof fn lemma_entry_lookup_no_match(entries: Seq<TranslationEntry>, key: Seq<char>)
    requires
        forall|j: int| 0 <= j < entries.len() ==> entries[j].key@ != key,
    ensures
        entry_lookup(entries, key) is None,
    decreases entries.len(),
{
    if entries.len() > 0 {
        lemma_entry_lookup_no_match(entries.drop_first(), key);
    }
}

/// Finds the per-language entry for the code `lang`, as `language_lookup`
/// describes it.
pub(crate) fn find_language<'a>(langs: &'a Vec<LanguageEntry>, lang: &String) -> (r: Option<
    &'a LanguageEntry,
>)
    ensures
        match r {
            Some(e) => language_lookup(langs@, lang@) == Some(*e),
            None => language_lookup(langs@, lang@) is None,
        },
{
    let n = langs.len();
    let mut i: usize = 0;
    while i < n
        invariant
            i <= n,
            n == langs@.len(),
            forall|j: int| 0 <= j < i ==> langs@[j].language@ != lang@,
        decreases n - i,
    {
        if langs[i].language == *lang {
            proof {
                lemma_language_lookup_first_match(langs@, lang@, i as int);
            }
            return Some(&langs[i]);
        }
        i += 1;
    }
    proof {
        lemma_language_lookup_no_match(langs@, lang@);
    }
    None
}

/// Finds the value stored under `key`, as `entry_lookup` describes it.
pub(crate) fn find_value<'a>(entries: &'a Vec<TranslationEntry>, key: &String) -> (r: Option<
    &'a TranslationValue,
>)
    ensures
        match r {
            Some(v) => entry_lookup(entries@, key@) == Some(*v),
            None => entry_lookup(entries@, key@) is None,
        },
{
    let n = entries.len();
    let mut i: usize = 0;
    while i < n
        invariant
            i <= n,
            n == entries@.len(),
            forall|j: int| 0 <= j < i ==> entries@[j].key@ != key@,
        decreases n - i,
    {
        if entries[i].key == *key {
            proof {
                lemma_entry_lookup_first_match(entries@, key@, i as int);
            }
            return Some(&entries[i].value);
        }
        i += 1;
    }
    proof {
        lemma_entry_lookup_no_match(entries@, key@);
    }
    None
}

} // verus!
