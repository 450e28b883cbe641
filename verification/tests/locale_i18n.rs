use material_ui::i18n::{
    resolve_language_tag, resolve_localized_text, LocalizedText, MaterialI18n, MaterialLanguage,
    MaterialLanguageOverride,
};
use material_ui::locale::{
    date_input_pattern_for_locale, locale_tag_from_env_value, system_locale_tag, DateFieldOrder,
    DateInputPattern, MaterialLocale, MaterialLocaleOverride,
};
use material_ui::translations_file::{load_translations, TranslationsLoadError};

fn s(x: &str) -> String {
    x.to_string()
}

#[test]
fn locale_patterns() {
    assert_eq!(date_input_pattern_for_locale("en-US").order, DateFieldOrder::Mdy);
    assert_eq!(date_input_pattern_for_locale(" en_ph ").order, DateFieldOrder::Mdy);
    assert_eq!(date_input_pattern_for_locale("ja-JP").order, DateFieldOrder::Ymd);
    assert_eq!(date_input_pattern_for_locale("ZH").order, DateFieldOrder::Ymd);
    assert_eq!(date_input_pattern_for_locale("de-DE").order, DateFieldOrder::Dmy);
    assert_eq!(date_input_pattern_for_locale("").order, DateFieldOrder::Dmy);
    assert_eq!(date_input_pattern_for_locale("fr").separator, '/');
}

#[test]
fn pattern_text_helpers() {
    let p = DateInputPattern::new(DateFieldOrder::Mdy, '/');
    assert_eq!(p.formatted_len(), 10);
    assert_eq!(p.hint(), "MM/DD/YYYY");
    assert_eq!(p.normalize_digits("03142024"), "03/14/2024");
    assert_eq!(p.normalize_digits("0a3-1"), "03/1");
    assert_eq!(p.normalize_digits("1234567890"), "12/34/5678");
    assert_eq!(p.try_parse_complete("03/14/2024"), Some((2024, 3, 14)));
    assert_eq!(p.try_parse_complete("03/14/202"), None);
    assert!(p.is_valid_complete_basic("12/31/2024"));
    assert!(!p.is_valid_complete_basic("13/01/2024"));
    let y = DateInputPattern::new(DateFieldOrder::Ymd, '-');
    assert_eq!(y.hint(), "YYYY-MM-DD");
    assert_eq!(y.normalize_digits("202403"), "2024-03");
}

#[test]
fn environment_locales() {
    assert_eq!(locale_tag_from_env_value("en_US.UTF-8"), Some(s("en-US")));
    assert_eq!(locale_tag_from_env_value("  "), None);
    assert_eq!(locale_tag_from_env_value(".UTF-8"), None);
    assert_eq!(system_locale_tag(&vec![None, Some(s("")), Some(s("fr_FR"))]), Some(s("fr-FR")));
    assert_eq!(system_locale_tag(&vec![None, None]), None);
    assert_eq!(MaterialLocale::from_system_tag(None).tag, "en-US");
    assert_eq!(MaterialLocale::new("de").tag, "de");
    assert_eq!(MaterialLocaleOverride::new("ja").tag, "ja");
    assert_eq!(MaterialLanguage::from_env_value(Some("pt_BR")).tag, "pt-BR");
    assert_eq!(MaterialLanguage::from_env_value(None).tag, "en-US");
}

#[test]
fn translation_store_with_fallback() {
    let mut i18n = MaterialI18n::default();
    assert_eq!(i18n.revision(), 0);
    i18n.insert_bundle(s("en-US"), vec![(s("ok"), s("OK")), (s("cancel"), s("Cancel"))]);
    i18n.insert_bundle(s("fr-FR"), vec![(s("ok"), s("D'accord"))]);
    assert_eq!(i18n.revision(), 2);
    assert_eq!(i18n.translate("fr-FR", "ok"), Some(s("D'accord")));
    assert_eq!(i18n.translate("fr-FR", "cancel"), Some(s("Cancel")));
    assert_eq!(i18n.translate("de-DE", "missing"), None);
    i18n.insert_bundle(s("fr-FR"), vec![(s("ok"), s("Oui")), (s("ok"), s("Bien"))]);
    assert_eq!(i18n.translate("fr-FR", "ok"), Some(s("Bien")));
    assert_eq!(i18n.bundle_languages(), vec![s("en-US"), s("fr-FR")]);
    let binding = LocalizedText::new("title").with_default("Untitled");
    assert_eq!(resolve_localized_text(&i18n, "fr-FR", &binding), "Untitled");
    assert_eq!(resolve_localized_text(&i18n, "fr-FR", &LocalizedText::new("ok")), "Bien");
    assert_eq!(resolve_localized_text(&i18n, "xx", &LocalizedText::new("key")), "key");
}

#[test]
fn language_resolution() {
    let global = MaterialLanguage::new("en-US");
    assert_eq!(resolve_language_tag(&vec![None, Some(s("fr")), Some(s("de"))], &global), "fr");
    assert_eq!(resolve_language_tag(&vec![None, None], &global), "en-US");
    assert_eq!(MaterialLanguageOverride::new("es").tag, "es");
}

#[test]
fn language_files() {
    let good = br#"{"language":"fr-FR","strings":{"ok":"D'accord","n":3,"cancel":"Annuler"}}"#;
    let t = load_translations(good).unwrap();
    assert_eq!(t.language, "fr-FR");
    assert_eq!(t.strings, vec![(s("cancel"), s("Annuler")), (s("ok"), s("D'accord"))]);
    match load_translations(br#"{"strings":{}}"#) {
        Err(TranslationsLoadError::MissingField(f)) => assert_eq!(f, "language"),
        other => panic!("unexpected {:?}", other),
    }
    match load_translations(br#"{"language":"en","strings":[1]}"#) {
        Err(TranslationsLoadError::MissingField(f)) => assert_eq!(f, "strings"),
        other => panic!("unexpected {:?}", other),
    }
    match load_translations(br#"{"language":5,"strings":{}}"#) {
        Err(TranslationsLoadError::MissingField(f)) => assert_eq!(f, "language"),
        other => panic!("unexpected {:?}", other),
    }
    assert!(matches!(load_translations(b"not json"), Err(TranslationsLoadError::Json(_))));
}
