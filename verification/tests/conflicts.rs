use autocopy::conflicts::{
    check_app_shortcut_overrides, check_system_shortcuts, check_user_key_equivalents,
    collect_findings, preference_domain, preference_domains, watched_chord_name,
    AppKeyEquivalents, ShortcutPreferences, COPY_CHORD, SELECT_ALL_CHORD,
};
use autocopy::keys::{is_bare_command, MASK_COMMAND, MASK_CONTROL, MASK_OPTION, MASK_SHIFT};
use autocopy::plist::{PlistEntry, PlistValue};

fn text(s: &str) -> PlistValue {
    PlistValue::Text(s.to_string())
}

fn entry(key: PlistValue, value: PlistValue) -> PlistEntry {
    PlistEntry { key, value }
}

fn dict(entries: Vec<PlistEntry>) -> PlistValue {
    PlistValue::Dictionary(entries)
}

/// A symbolic hotkey entry: `{enabled, value: {parameters: [char, keycode, mods]}}`.
fn hotkey(enabled: PlistValue, keycode: i64, mods: i64) -> PlistValue {
    dict(vec![
        entry(text("enabled"), enabled),
        entry(
            text("value"),
            dict(vec![
                entry(text("type"), text("standard")),
                entry(
                    text("parameters"),
                    PlistValue::Array(vec![
                        PlistValue::Integer(65535),
                        PlistValue::Integer(keycode),
                        PlistValue::Integer(mods),
                    ]),
                ),
            ]),
        ),
    ])
}

fn system_message(id: &str, chord: &str) -> String {
    format!(
        "a system-wide keyboard shortcut (symbolic hotkey {id}, System \
         Settings -> Keyboard -> Keyboard Shortcuts) is bound to \
         {chord}. AutoCopy watches Cmd+A and synthesizes Cmd+C, so \
         every auto-copy would also trigger that system action."
    )
}

fn override_message(chord: &str, title: &str, scope: &str) -> String {
    format!(
        "{chord} is reassigned to the menu item \"{title}\" for {scope} \
         (System Settings -> Keyboard -> App Shortcuts). Where that \
         override applies, the chord no longer does what AutoCopy \
         assumes \u{2014} auto-copy may misfire or trigger that menu item."
    )
}

#[test]
fn only_bare_command_chords_are_watched() {
    assert!(watched_chord_name("@a").is_some());
    assert!(watched_chord_name("@c").is_some());
    // Uppercase means Shift is part of the chord (⌘⇧A ≠ ⌘A).
    assert_eq!(watched_chord_name("@A"), None);
    assert_eq!(watched_chord_name("@C"), None);
    // Extra modifier sigils are different chords.
    assert_eq!(watched_chord_name("$@a"), None);
    assert_eq!(watched_chord_name("~@c"), None);
    assert_eq!(watched_chord_name("^@a"), None);
    // Other keys are none of our business.
    assert_eq!(watched_chord_name("@b"), None);
    assert_eq!(watched_chord_name(""), None);
}

#[test]
fn bare_command_mask_check() {
    assert!(is_bare_command(MASK_COMMAND));
    // Symbolic hotkey masks routinely carry extra device bits alongside
    // the device-independent ones; only the four standard modifiers
    // should matter.
    assert!(is_bare_command(MASK_COMMAND | 0x8));
    assert!(!is_bare_command(MASK_COMMAND | MASK_SHIFT));
    assert!(!is_bare_command(MASK_COMMAND | MASK_CONTROL));
    assert!(!is_bare_command(MASK_COMMAND | MASK_OPTION));
    assert!(!is_bare_command(MASK_SHIFT));
    assert!(!is_bare_command(0));
}

#[test]
fn watched_chord_names_are_the_chord_descriptions() {
    assert_eq!(watched_chord_name("@a"), Some("the select-all chord (Cmd+A)"));
    assert_eq!(watched_chord_name("@c"), Some("the copy chord (Cmd+C)"));
    assert_eq!(SELECT_ALL_CHORD, "the select-all chord (Cmd+A)");
    assert_eq!(COPY_CHORD, "the copy chord (Cmd+C)");
}

#[test]
fn device_bits_do_not_change_bare_command() {
    assert!(is_bare_command(MASK_COMMAND | 0x1 | 0x100 | (1 << 23)));
    assert!(!is_bare_command(MASK_COMMAND | MASK_SHIFT | 0x8));
    assert!(is_bare_command(-1 & !(MASK_SHIFT | MASK_CONTROL | MASK_OPTION)));
    assert!(!is_bare_command(-1));
}

#[test]
fn enabled_system_hotkey_on_cmd_a_is_reported() {
    let root = Some(dict(vec![entry(text("27"), hotkey(PlistValue::Integer(1), 0, MASK_COMMAND))]));
    let mut findings = Vec::new();
    check_system_shortcuts(&root, &mut findings);
    assert_eq!(findings, vec![system_message("27", SELECT_ALL_CHORD)]);
}

#[test]
fn enabled_written_as_boolean_counts() {
    let root = Some(dict(vec![entry(
        text("99"),
        hotkey(PlistValue::Boolean(true), 8, MASK_COMMAND | 0x8),
    )]));
    let mut findings = vec!["earlier".to_string()];
    check_system_shortcuts(&root, &mut findings);
    assert_eq!(findings, vec!["earlier".to_string(), system_message("99", COPY_CHORD)]);
}

#[test]
fn system_hotkeys_that_do_not_claim_the_chords_are_skipped() {
    let root = Some(dict(vec![
        // disabled
        entry(text("1"), hotkey(PlistValue::Integer(0), 0, MASK_COMMAND)),
        entry(text("2"), hotkey(PlistValue::Boolean(false), 8, MASK_COMMAND)),
        // extra modifier
        entry(text("3"), hotkey(PlistValue::Integer(1), 0, MASK_COMMAND | MASK_SHIFT)),
        // another key
        entry(text("4"), hotkey(PlistValue::Integer(1), 1, MASK_COMMAND)),
        // not a dictionary
        entry(text("5"), text("garbage")),
        // parameters too short
        entry(
            text("6"),
            dict(vec![
                entry(text("enabled"), PlistValue::Integer(1)),
                entry(
                    text("value"),
                    dict(vec![entry(
                        text("parameters"),
                        PlistValue::Array(vec![PlistValue::Integer(97), PlistValue::Integer(0)]),
                    )]),
                ),
            ]),
        ),
        // parameters not numbers
        entry(
            text("7"),
            dict(vec![
                entry(text("enabled"), PlistValue::Integer(1)),
                entry(
                    text("value"),
                    dict(vec![entry(
                        text("parameters"),
                        PlistValue::Array(vec![
                            PlistValue::Integer(97),
                            text("0"),
                            PlistValue::Integer(MASK_COMMAND),
                        ]),
                    )]),
                ),
            ]),
        ),
        // value not a dictionary
        entry(
            text("8"),
            dict(vec![
                entry(text("enabled"), PlistValue::Integer(1)),
                entry(text("value"), PlistValue::Other),
            ]),
        ),
    ]));
    let mut findings = Vec::new();
    check_system_shortcuts(&root, &mut findings);
    assert!(findings.is_empty());
}

#[test]
fn non_string_hotkey_id_is_named_with_a_question_mark() {
    let root = Some(dict(vec![entry(PlistValue::Integer(7), hotkey(PlistValue::Integer(1), 8, MASK_COMMAND))]));
    let mut findings = Vec::new();
    check_system_shortcuts(&root, &mut findings);
    assert_eq!(findings, vec![system_message("?", COPY_CHORD)]);
}

#[test]
fn missing_or_malformed_system_preference_reports_nothing() {
    let mut findings = Vec::new();
    check_system_shortcuts(&None, &mut findings);
    check_system_shortcuts(&Some(PlistValue::Array(vec![])), &mut findings);
    check_system_shortcuts(&Some(PlistValue::Integer(3)), &mut findings);
    assert!(findings.is_empty());
}

#[test]
fn global_app_shortcut_override_is_reported() {
    let root = Some(dict(vec![
        entry(text("Copy Style"), text("@c")),
        entry(text("Select None"), text("$@a")),
        entry(text("Zoom"), PlistValue::Integer(3)),
    ]));
    let mut findings = Vec::new();
    check_user_key_equivalents(None, &root, &mut findings);
    assert_eq!(
        findings,
        vec![override_message(COPY_CHORD, "Copy Style", "every app (global)")]
    );
}

#[test]
fn per_app_overrides_name_their_domain() {
    let apps = vec![
        AppKeyEquivalents {
            domain: "com.example.editor".to_string(),
            key_equivalents: Some(dict(vec![entry(text("Select Paragraph"), text("@a"))])),
        },
        AppKeyEquivalents { domain: "com.example.empty".to_string(), key_equivalents: None },
        AppKeyEquivalents {
            domain: "com.example.viewer".to_string(),
            key_equivalents: Some(dict(vec![entry(PlistValue::Other, text("@c"))])),
        },
    ];
    let global = Some(dict(vec![entry(text("Duplicate"), text("@a"))]));
    let mut findings = Vec::new();
    check_app_shortcut_overrides(&global, &apps, &mut findings);
    assert_eq!(
        findings,
        vec![
            override_message(SELECT_ALL_CHORD, "Duplicate", "every app (global)"),
            override_message(SELECT_ALL_CHORD, "Select Paragraph", "com.example.editor"),
            override_message(COPY_CHORD, "?", "com.example.viewer"),
        ]
    );
}

#[test]
fn collect_findings_lists_system_shortcuts_first() {
    let preferences = ShortcutPreferences {
        symbolic_hotkeys: Some(dict(vec![entry(text("12"), hotkey(PlistValue::Integer(1), 0, MASK_COMMAND))])),
        global_key_equivalents: Some(dict(vec![entry(text("Copy All"), text("@c"))])),
        app_key_equivalents: vec![],
    };
    assert_eq!(
        collect_findings(&preferences),
        vec![
            system_message("12", SELECT_ALL_CHORD),
            override_message(COPY_CHORD, "Copy All", "every app (global)"),
        ]
    );
}

#[test]
fn nothing_configured_means_no_findings() {
    let preferences = ShortcutPreferences {
        symbolic_hotkeys: None,
        global_key_equivalents: None,
        app_key_equivalents: vec![AppKeyEquivalents {
            domain: "com.apple.finder".to_string(),
            key_equivalents: None,
        }],
    };
    assert!(collect_findings(&preferences).is_empty());
}

#[test]
fn preference_domains_come_from_plist_file_names() {
    assert_eq!(preference_domain("com.apple.finder.plist"), Some("com.apple.finder".to_string()));
    assert_eq!(preference_domain(".GlobalPreferences.plist"), None);
    assert_eq!(preference_domain("notes.txt"), None);
    assert_eq!(preference_domain("plist"), None);
    assert_eq!(preference_domain(".plist"), Some(String::new()));
    let names = vec![
        "com.apple.finder.plist".to_string(),
        ".GlobalPreferences.plist".to_string(),
        "com.example.app.plist.lockfile".to_string(),
        "org.example.tool.plist".to_string(),
    ];
    assert_eq!(
        preference_domains(&names),
        vec!["com.apple.finder".to_string(), "org.example.tool".to_string()]
    );
}
