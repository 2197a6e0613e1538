//! A runtime translation registry: a set of supported language codes, a
//! per-language table of translation keys, a current language, and key
//! lookup with a diagnostic fallback on a miss.

pub mod registry;
pub mod table;
pub mod value;

pub use registry::YewI18n;
pub use registry::YewI18nConfig;
pub use table::LanguageEntry;
pub use table::TranslationEntry;
pub use table::TranslationTable;
pub use value::TranslationValue;
