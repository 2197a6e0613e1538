//! The value side of a translation table entry.

use vstd::prelude::*;

verus! {

/// A translated value: either a plain string, returned verbatim by a lookup,
/// or a structured (non-string) value, carried as its canonical textual
/// rendering so that a lookup can still return text for it.
#[derive(Debug, Clone, PartialEq)]
pub enum TranslationValue {
    /// A plain string translation.
    Text(String),
    /// The textual rendering of a structured (non-string) value.
    Structured(String),
}

impl TranslationValue {
    /// The text a lookup returns for this value: the string itself for a
    /// plain string, the stored rendering for a structured value.
    pub open spec fn rendered(self) -> Seq<char> {
        match self {
            TranslationValue::Text(s) => s@,
            TranslationValue::Structured(s) => s@,
        }
    }

    /// Returns the text of this value, as `rendered` describes it.
    pub fn render(&self) -> (r: String)
        ensures
            r@ == self.rendered(),
    {
        match self {
            TranslationValue::Text(s) => s.clone(),
            TranslationValue::Structured(s) => s.clone(),
        }
    }
}

} // verus!
