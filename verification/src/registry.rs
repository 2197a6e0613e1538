//! The translation registry: the supported language codes, the translation
//! table, and the current language, with language switching and key lookup.

use vstd::prelude::*;
use vstd::string::StringExecFns;

use crate::table::TranslationTable;
use crate::table::find_language;
use crate::table::find_value;

verus! {

/// Configuration of a registry: the supported language codes and the
/// translation table.
#[derive(Debug, Clone, PartialEq)]
pub struct YewI18nConfig {
    /// The supported language codes; the first one is the initial current
    /// language.
    pub supported_languages: Vec<String>,
    /// The translation table.
    pub translations: TranslationTable,
}

/// Whether `code` occurs among the codes `langs`.
pub open spec fn supports_code(langs: Seq<String>, code: Seq<char>) -> bool {
    exists|i: int| 0 <= i < langs.len() && langs[i]@ == code
}

/// The diagnostic a lookup returns when `key` has no entry in the language
/// `lang`.
pub open spec fn miss_message(key: Seq<char>, lang: Seq<char>) -> Seq<char> {
    "Unable to find the key '"@ + key + "' in the language '"@ + lang + "'"@
}

/// The error a language switch returns when the code `lang` is not
/// supported.
pub open spec fn unsupported_message(lang: Seq<char>) -> Seq<char> {
    "Language '"@ + lang + "' is not supported"@
}

/// Builds the `miss_message` diagnostic for `key` and `lang`.
fn miss_text(key: &str, lang: &String) -> (r: String)
    ensures
        r@ == miss_message(key@, lang@),
{
    let mut r = String::from_str("Unable to find the key '");
    r.append(key);
    r.append("' in the language '");
    r.append(lang.as_str());
    r.append("'");
    r
}

/// Builds the `unsupported_message` error for `lang`.
fn unsupported_text(lang: &str) -> (r: String)
    ensures
        r@ == unsupported_message(lang@),
{
    let mut r = String::from_str("Language '");
    r.append(lang);
    r.append("' is not supported");
    r
}

/// Whether `code` occurs in `langs`, as `supports_code` describes it.
fn contains_code(langs: &Vec<String>, code: &String) -> (r: bool)
    ensures
        r == supports_code(langs@, code@),
{
    let n = langs.len();
    let mut i: usize = 0;
    while i < n
        invariant
            i <= n,
            n == langs@.len(),
            forall|j: int| 0 <= j < i ==> langs@[j]@ != code@,
        decreases n - i,
    {
        if langs[i] == *code {
            return true;
        }
        i += 1;
    }
    false
}

/// The translation registry: its configuration, the current language, and
/// the translation table that lookups resolve against.
#[derive(Debug, Clone, PartialEq)]
pub struct YewI18n {
    /// The registry's configuration.
    pub config: YewI18nConfig,
    /// The code of the current language.
    pub current_language: String,
    /// The table that lookups resolve against.
    pub translations: TranslationTable,
}

impl YewI18n {
    /// The code of the current language.
    pub open spec fn current(self) -> Seq<char> {
        self.current_language@
    }

    /// The table that lookups resolve against.
    pub open spec fn table(self) -> TranslationTable {
        self.translations
    }

    /// Whether `code` is one of the supported language codes.
    pub open spec fn supports(self, code: Seq<char>) -> bool {
        supports_code(self.config.supported_languages@, code)
    }

    /// A valid registry: at least one supported language, and the current
    /// language is one of them.
    pub open spec fn wf(self) -> bool {
        &&& self.config.supported_languages@.len() > 0
        &&& self.supports(self.current())
    }

    /// What a lookup of `key` returns: the found value's text, or the
    /// diagnostic when the current language has no entry for the key.
    pub open spec fn spec_resolve(self, key: Seq<char>) -> Seq<char> {
        match self.table().spec_lookup(self.current(), key) {
            Some(v) => v.rendered(),
            None => miss_message(key, self.current()),
        }
    }

    /// Creates a registry whose current language is the first supported
    /// code, or an error when no code is supplied.
    pub fn new(config: YewI18nConfig, translations: TranslationTable) -> (r: Result<
        YewI18n,
        String,
    >)
        ensures
            r is Ok <==> config.supported_languages@.len() > 0,
            r matches Ok(reg) ==> {
                &&& reg.config == config
                &&& reg.table() == translations
                &&& reg.current() == config.supported_languages@[0]@
                &&& reg.wf()
            },
            r matches Err(m) ==> m@ == "You must add at least one supported language"@,
    {
        if config.supported_languages.len() == 0 {
            Err(String::from_str("You must add at least one supported language"))
        } else {
            let current_language = config.supported_languages[0].clone();
            Ok(YewI18n { config, current_language, translations })
        }
    }

    /// Switches the current language to `language`: succeeds exactly when
    /// the code is supported, and on failure leaves the registry unchanged.
    pub fn set_translation_language(&mut self, language: &str) -> (r: Result<(), String>)
        ensures
            r is Ok <==> old(self).supports(language@),
            final(self).config == old(self).config,
            final(self).table() == old(self).table(),
            r is Ok ==> final(self).current() == language@ && final(self).wf(),
            r is Err ==> *final(self) == *old(self),
            r matches Err(m) ==> m@ == unsupported_message(language@),
            old(self).wf() ==> final(self).wf(),
    {
        let code: String = language.to_owned();
        if contains_code(&self.config.supported_languages, &code) {
            self.current_language = code;
            Ok(())
        } else {
            Err(unsupported_text(language))
        }
    }

    /// Resolves `key` in the current language: the stored value's text on a
    /// hit, the diagnostic of `miss_message` on a miss. Never fails.
    pub fn t(&self, key: &str) -> (r: String)
        ensures
            r@ == self.spec_resolve(key@),
    {
        let owned_key: String = key.to_owned();
        match find_language(&self.translations.languages, &self.current_language) {
            Some(entry) => match find_value(&entry.entries, &owned_key) {
                Some(v) => v.render(),
                None => miss_text(key, &self.current_language),
            },
            None => miss_text(key, &self.current_language),
        }
    }
}

/// Switching to the language that is already current never fails and never
/// changes observable state. The hypotheses are what the contract of
/// `set_translation_language` admits for a call on a valid registry `pre`
/// whose requested code is `pre.current()`; for every such outcome the call
/// returned `Ok` and left the current language, the configuration and the
/// table as they were.
pub proof fn lemma_idempotent_switch(pre: YewI18n, post: YewI18n, r: Result<(), String>)
    requires
        pre.wf(),
        r is Ok <==> pre.supports(pre.current()),
        post.config == pre.config,
        post.table() == pre.table(),
        r is Ok ==> post.current() == pre.current(),
        r is Err ==> post == pre,
    ensures
        r is Ok,
        post.current() == pre.current(),
        post.config == pre.config,
        post.table() == pre.table(),
        post.wf(),
{
}

} // verus!
