use minnty_sound_server::i18n::table::{copy_table, merge_json, strings_for, text, StringTable};

fn s(text: &str) -> String {
    text.to_string()
}

fn obj(members: Vec<(&str, StringTable)>) -> StringTable {
    StringTable::Object(members.into_iter().map(|(name, value)| (s(name), value)).collect())
}

fn english() -> StringTable {
    obj(vec![
        ("launcher", obj(vec![
            ("tooltip", StringTable::Text(s("Minnty Server"))),
            ("menu", obj(vec![
                ("quit", StringTable::Text(s("Quit"))),
                ("show_ui", StringTable::Text(s("Show UI"))),
            ])),
        ])),
        ("count", StringTable::Other(s("3"))),
    ])
}

fn german() -> StringTable {
    obj(vec![("launcher", obj(vec![("menu", obj(vec![("quit", StringTable::Text(s("Beenden")))]))]))])
}

fn member<'a>(table: &'a StringTable, name: &str) -> Option<&'a StringTable> {
    match table {
        StringTable::Object(members) => members.iter().find(|(n, _)| n == name).map(|(_, v)| v),
        _ => None,
    }
}

#[test]
fn text_follows_dotted_keys() {
    let en = english();
    assert_eq!(text(&en, "launcher.menu.quit"), "Quit");
    assert_eq!(text(&en, "launcher.tooltip"), "Minnty Server");
    // Missing keys, objects and non-string values give the key back.
    assert_eq!(text(&en, "launcher.menu.missing"), "launcher.menu.missing");
    assert_eq!(text(&en, "launcher.menu"), "launcher.menu");
    assert_eq!(text(&en, "count"), "count");
    assert_eq!(text(&en, "launcher.tooltip.more"), "launcher.tooltip.more");
    assert_eq!(text(&en, ""), "");
}

#[test]
fn merge_overrides_localized_strings_and_keeps_english_fallbacks() {
    let mut merged = english();
    merge_json(&mut merged, &german());
    // What the locale table has wins.
    assert_eq!(text(&merged, "launcher.menu.quit"), "Beenden");
    // What it lacks falls back to English.
    assert_eq!(text(&merged, "launcher.menu.show_ui"), "Show UI");
    assert_eq!(text(&merged, "launcher.tooltip"), "Minnty Server");
    assert!(matches!(member(&merged, "count"), Some(StringTable::Other(t)) if t == "3"));
}

#[test]
fn merge_replaces_non_objects_and_adds_new_members() {
    let mut base = obj(vec![("a", StringTable::Text(s("x")))]);
    merge_json(&mut base, &obj(vec![("a", obj(vec![("b", StringTable::Text(s("y")))])), ("c", StringTable::Text(s("z")))]));
    assert_eq!(text(&base, "a.b"), "y");
    assert_eq!(text(&base, "c"), "z");

    let mut base = english();
    merge_json(&mut base, &StringTable::Other(s("null")));
    assert!(matches!(base, StringTable::Other(ref t) if t == "null"));
}

#[test]
fn copy_is_equal_in_content() {
    let en = english();
    let copy = copy_table(&en);
    assert_eq!(text(&copy, "launcher.menu.quit"), "Quit");
    assert_eq!(text(&copy, "launcher.menu.show_ui"), "Show UI");
}

#[test]
fn strings_for_picks_locale_and_merges() {
    let en = english();
    let locale_tables = vec![("de", german())];

    let (locale, strings) = strings_for(Some("de-DE,en;q=0.8"), "en", &en, &locale_tables);
    assert_eq!(locale, "de");
    assert_eq!(text(&strings, "launcher.menu.quit"), "Beenden");
    assert_eq!(text(&strings, "launcher.menu.show_ui"), "Show UI");

    let (locale, strings) = strings_for(Some("xx"), "de", &en, &locale_tables);
    assert_eq!(locale, "de");
    assert_eq!(text(&strings, "launcher.menu.quit"), "Beenden");

    let (locale, strings) = strings_for(None, "en", &en, &locale_tables);
    assert_eq!(locale, "en");
    assert_eq!(text(&strings, "launcher.menu.quit"), "Quit");

    // A locale without a table is served English.
    let (locale, strings) = strings_for(Some("ja"), "en", &en, &locale_tables);
    assert_eq!(locale, "ja");
    assert_eq!(text(&strings, "launcher.menu.quit"), "Quit");
}
