use yew_i18n::LanguageEntry;
use yew_i18n::TranslationEntry;
use yew_i18n::TranslationTable;
use yew_i18n::TranslationValue;
use yew_i18n::YewI18n;
use yew_i18n::YewI18nConfig;

fn language(code: &str, pairs: &[(&str, TranslationValue)]) -> LanguageEntry {
    LanguageEntry {
        language: code.to_string(),
        entries: pairs
            .iter()
            .map(|(key, value)| TranslationEntry {
                key: key.to_string(),
                value: value.clone(),
            })
            .collect(),
    }
}

fn sample_table() -> TranslationTable {
    TranslationTable {
        languages: vec![
            language(
                "en",
                &[("greeting", TranslationValue::Text("Hello".to_string()))],
            ),
            language(
                "fr",
                &[("greeting", TranslationValue::Text("Bonjour".to_string()))],
            ),
        ],
    }
}

fn registry(codes: &[&str], table: TranslationTable) -> YewI18n {
    let config = YewI18nConfig {
        supported_languages: codes.iter().map(|code| code.to_string()).collect(),
        translations: table.clone(),
    };
    YewI18n::new(config, table).unwrap()
}

#[test]
fn construct_sets_first_supported_language() {
    let reg = registry(&["en", "fr"], sample_table());
    assert_eq!(reg.current_language, "en");
    assert_eq!(reg.config.supported_languages, vec!["en", "fr"]);
}

#[test]
fn construct_without_languages_fails() {
    let empty = TranslationTable { languages: vec![] };
    let config = YewI18nConfig {
        supported_languages: vec![],
        translations: empty.clone(),
    };
    let result = YewI18n::new(config, empty);
    assert_eq!(
        result.unwrap_err(),
        "You must add at least one supported language"
    );

    let config = YewI18nConfig {
        supported_languages: vec![],
        translations: sample_table(),
    };
    let result = YewI18n::new(config, sample_table());
    assert_eq!(
        result.unwrap_err(),
        "You must add at least one supported language"
    );
}

#[test]
fn set_language_succeeds_for_supported_code() {
    let mut reg = registry(&["en", "fr"], sample_table());
    assert!(reg.set_translation_language("fr").is_ok());
    assert_eq!(reg.current_language, "fr");
}

#[test]
fn set_language_rejects_unsupported_code() {
    let mut reg = registry(&["en", "fr"], sample_table());
    let result = reg.set_translation_language("es");
    assert_eq!(result.unwrap_err(), "Language 'es' is not supported");
    assert_eq!(reg.current_language, "en");
}

#[test]
fn set_language_is_idempotent() {
    let mut reg = registry(&["en", "fr"], sample_table());
    assert!(reg.set_translation_language("en").is_ok());
    assert_eq!(reg.current_language, "en");
    assert_eq!(reg.t("greeting"), "Hello");

    assert!(reg.set_translation_language("fr").is_ok());
    assert!(reg.set_translation_language("fr").is_ok());
    assert_eq!(reg.current_language, "fr");
    assert_eq!(reg.t("greeting"), "Bonjour");
}

#[test]
fn translate_returns_hit_for_current_language() {
    let mut reg = registry(&["en", "fr"], sample_table());
    assert_eq!(reg.t("greeting"), "Hello");
    reg.set_translation_language("fr").unwrap();
    assert_eq!(reg.t("greeting"), "Bonjour");
}

#[test]
fn translate_reports_missing_key() {
    let mut reg = registry(&["en", "fr"], sample_table());
    assert_eq!(
        reg.t("farewell"),
        "Unable to find the key 'farewell' in the language 'en'"
    );
    reg.set_translation_language("fr").unwrap();
    assert_eq!(
        reg.t("farewell"),
        "Unable to find the key 'farewell' in the language 'fr'"
    );
}

#[test]
fn translate_renders_structured_value() {
    let table = TranslationTable {
        languages: vec![language(
            "en",
            &[(
                "countdown",
                TranslationValue::Structured("[3,2,1]".to_string()),
            )],
        )],
    };
    let reg = registry(&["en"], table);
    assert_eq!(reg.t("countdown"), "[3,2,1]");
}

#[test]
fn translate_resolves_against_the_table_it_was_given() {
    // The table handed to `new` is the one lookups use, even when the
    // configuration carries a different one.
    let config = YewI18nConfig {
        supported_languages: vec!["en".to_string()],
        translations: TranslationTable { languages: vec![] },
    };
    let reg = YewI18n::new(config, sample_table()).unwrap();
    assert_eq!(reg.t("greeting"), "Hello");
}

#[test]
fn supported_but_untranslated_language_misses() {
    let mut reg = registry(&["en", "fr", "de", "es"], sample_table());
    assert_eq!(reg.t("greeting"), "Hello");
    assert!(reg.set_translation_language("de").is_ok());
    assert_eq!(
        reg.t("greeting"),
        "Unable to find the key 'greeting' in the language 'de'"
    );
    let result = reg.set_translation_language("it");
    assert_eq!(result.unwrap_err(), "Language 'it' is not supported");
    assert_eq!(reg.current_language, "de");
}

#[test]
fn language_entry_without_the_key_misses() {
    let table = TranslationTable {
        languages: vec![language("en", &[])],
    };
    let reg = registry(&["en"], table);
    assert_eq!(
        reg.t("greeting"),
        "Unable to find the key 'greeting' in the language 'en'"
    );
}
