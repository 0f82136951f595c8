use listenmoe::locale::catalog::{
    parse_po, parse_po_string, translate, unescape_po_string, Translations,
};
use listenmoe::locale::directory::{find_locale_dir, locale_path, LocaleDir, LocaleDirs};
use listenmoe::locale::language::{
    detect_environment_language, detect_language, language_from_locale,
    language_from_windows_lang_id, Language,
};

#[test]
fn parses_simple_entries() {
    let translations = parse_po(
        r#"
msgid "Preferences"
msgstr "Voorkeuren"
"#,
    );

    assert_eq!(
        translations.get("Preferences").map(String::as_str),
        Some("Voorkeuren")
    );
}

#[test]
fn parses_multiline_entries() {
    let translations = parse_po(
        r#"
msgid ""
"Try again "
"later."
msgstr ""
"Probeer het "
"later opnieuw."
"#,
    );

    assert_eq!(
        translations.get("Try again later.").map(String::as_str),
        Some("Probeer het later opnieuw.")
    );
}

#[test]
fn parses_common_escapes() {
    let translations = parse_po(
        r#"
msgid "Line\n\"quoted\"\\tab\tend"
msgstr "Regel\n\"geciteerd\"\\tab\tklaar"
"#,
    );

    assert_eq!(
        translations
            .get("Line\n\"quoted\"\\tab\tend")
            .map(String::as_str),
        Some("Regel\n\"geciteerd\"\\tab\tklaar")
    );
}

#[test]
fn skips_empty_translations() {
    let translations = parse_po(
        r#"
msgid "Missing"
msgstr ""
"#,
    );

    assert!(!translations.contains_key("Missing"));
}

#[test]
fn falls_back_for_missing_and_empty_translations() {
    let mut translations = Translations::new();
    translations.insert("Known".to_string(), "Bekend".to_string());
    translations.insert("Empty".to_string(), String::new());

    assert_eq!(translate(Some(&translations), "Known"), "Bekend");
    assert_eq!(translate(Some(&translations), "Missing"), "Missing");
    assert_eq!(translate(Some(&translations), "Empty"), "Empty");
    assert_eq!(translate(None, "English"), "English");
}

#[test]
fn detects_language_from_locale_strings() {
    assert_eq!(language_from_locale("nl_NL.UTF-8"), Some(Language::Dutch));
    assert_eq!(language_from_locale("de-DE"), Some(Language::German));
    assert_eq!(language_from_locale("es_ES"), Some(Language::Spanish));
    assert_eq!(language_from_locale("ja_JP"), Some(Language::Japanese));
    assert_eq!(language_from_locale("C"), Some(Language::English));
    assert_eq!(language_from_locale("C.UTF-8"), Some(Language::English));
    assert_eq!(language_from_locale("POSIX"), Some(Language::English));
    assert_eq!(language_from_locale("POSIX.UTF-8"), Some(Language::English));
    assert_eq!(language_from_locale("fr_FR.UTF-8"), None);
}

#[test]
fn maps_windows_primary_language_ids() {
    assert_eq!(
        language_from_windows_lang_id(0x0407),
        Some(Language::German)
    );
    assert_eq!(
        language_from_windows_lang_id(0x0409),
        Some(Language::English)
    );
    assert_eq!(
        language_from_windows_lang_id(0x0c0a),
        Some(Language::Spanish)
    );
    assert_eq!(
        language_from_windows_lang_id(0x0411),
        Some(Language::Japanese)
    );
    assert_eq!(language_from_windows_lang_id(0x0413), Some(Language::Dutch));
    assert_eq!(language_from_windows_lang_id(0x040c), None);
}

#[test]
fn comments_headers_and_windows_line_ends_are_read_over() {
    let translations = parse_po(
        "msgid \"\"\r\nmsgstr \"Language: nl\"\r\n\r\n# note\r\n#: file.rs\r\nmsgid \"A\"\r\nmsgstr \"B\"\r\nmsgid \"C\"\r\nmsgstr \"D\"",
    );
    assert!(!translations.contains_key(""));
    assert_eq!(translations.get("A").map(String::as_str), Some("B"));
    assert_eq!(translations.get("C").map(String::as_str), Some("D"));
    let cut = parse_po("\"stray\"\nmsgid \"A\"\n\n\"B\"\nmsgstr \"C\"\n");
    assert!(!cut.contains_key("A"));
}

#[test]
fn strings_of_a_catalog_are_unescaped() {
    assert_eq!(unescape_po_string("a\\r\\q\\"), "a\r\\q\\");
    assert_eq!(unescape_po_string("\\\\n"), "\\n");
    assert_eq!(parse_po_string(" \"x\" "), "x");
    assert_eq!(parse_po_string("\""), "\"");
    assert_eq!(parse_po_string("x\\n"), "x\n");
}

#[test]
fn the_environment_goes_before_the_platform() {
    let settings = [
        None,
        Some("fr_FR: :de_DE:nl".to_string()),
        Some("es".to_string()),
        None,
    ];
    assert_eq!(
        detect_environment_language(&settings),
        Some(Language::German)
    );
    assert_eq!(
        detect_language(&settings, Some(Language::Japanese)),
        Language::German
    );
    assert_eq!(
        detect_language(&[None], Some(Language::Japanese)),
        Language::Japanese
    );
    assert_eq!(detect_language(&[], None), Language::English);
    assert_eq!(language_from_locale(" EN@euro "), Some(Language::English));
    assert_eq!(language_from_locale(""), None);
}

#[test]
fn the_first_directory_that_is_there_is_taken() {
    let none = LocaleDirs {
        developer: false,
        app_image: false,
        beside_program: false,
        flatpak: false,
        user_data: false,
        system: false,
    };
    assert_eq!(find_locale_dir(none), LocaleDir::Developer);
    let some = LocaleDirs { beside_program: true, system: true, ..none };
    assert_eq!(find_locale_dir(some), LocaleDir::BesideProgram);
    assert_eq!(locale_path(LocaleDir::AppImage), vec!["usr", "share", "locale"]);
    assert_eq!(
        locale_path(LocaleDir::UserData),
        vec!["io.github.noobping.listenmoe", "locale"]
    );
}
