//! Startup check: are the two chords AutoCopy relies on, Cmd+A (watched)
//! and Cmd+C (synthesized), already claimed by a system-wide keyboard
//! shortcut or by a custom app shortcut? The preferences are read
//! elsewhere; this module decides what each value read means.

use vstd::prelude::*;
use vstd::string::*;
use crate::keys::{bare_command, is_bare_command, KEYCODE_A, KEYCODE_C};
use crate::plist::{
    as_array, as_dictionary, as_i64, as_string, elements_of, entries_of, find, integer_of,
    lookup, text_of, PlistEntry, PlistValue,
};
use crate::text::str_eq;

verus! {

/// How a finding names the select-all chord.
pub const SELECT_ALL_CHORD: &'static str = "the select-all chord (Cmd+A)";

/// How a finding names the copy chord.
pub const COPY_CHORD: &'static str = "the copy chord (Cmd+C)";

/// The chord an `NSUserKeyEquivalents` key equivalent denotes, if it is one
/// of the two bare Command chords AutoCopy relies on.
pub open spec fn watched_chord(key_equivalent: Seq<char>) -> Option<Seq<char>> {
    if key_equivalent == "@a"@ {
        Some(SELECT_ALL_CHORD@)
    } else if key_equivalent == "@c"@ {
        Some(COPY_CHORD@)
    } else {
        None
    }
}

/// `NSUserKeyEquivalents` encodes shortcuts as modifier sigils followed by
/// the key: `@` Command, `$` Shift, `~` Option, `^` Control, and an
/// uppercase letter implies Shift by itself. Only the two bare Command
/// chords AutoCopy relies on are of interest.
pub fn watched_chord_name(key_equivalent: &str) -> (name: Option<&'static str>)
    ensures
        match name {
            Some(n) => watched_chord(key_equivalent@) == Some(n@),
            None => watched_chord(key_equivalent@) is None,
        },
{
    if str_eq(key_equivalent, "@a") {
        Some(SELECT_ALL_CHORD)
    } else if str_eq(key_equivalent, "@c") {
        Some(COPY_CHORD)
    } else {
        None
    }
}


/// The text of each string in `strings`.
pub open spec fn texts(strings: Seq<String>) -> Seq<Seq<char>> {
    strings.map_values(|s: String| s@)
}

/// How a finding names a dictionary key: its text, or `?` when the key is
/// not a string.
pub open spec fn key_name(key: PlistValue) -> Seq<char> {
    match text_of(key) {
        Some(t) => t,
        None => "?"@,
    }
}

/// The integer stored under `key`, if there is one.
pub open spec fn found_integer(entries: Seq<PlistEntry>, key: Seq<char>) -> Option<i64> {
    match lookup(entries, key) {
        Some(v) => integer_of(v),
        None => None,
    }
}

/// The dictionary stored under `key`, if there is one.
pub open spec fn found_entries(entries: Seq<PlistEntry>, key: Seq<char>) -> Option<Seq<PlistEntry>> {
    match lookup(entries, key) {
        Some(v) => entries_of(v),
        None => None,
    }
}

/// The array stored under `key`, if there is one.
pub open spec fn found_elements(entries: Seq<PlistEntry>, key: Seq<char>) -> Option<Seq<PlistValue>> {
    match lookup(entries, key) {
        Some(v) => elements_of(v),
        None => None,
    }
}

/// The integer at position `i` of an array, if there is one.
pub open spec fn element_integer(items: Seq<PlistValue>, i: int) -> Option<i64> {
    if 0 <= i < items.len() {
        integer_of(items[i])
    } else {
        None
    }
}

/// The watched chord a virtual keycode stands for, with Command held.
pub open spec fn keycode_chord(keycode: i64) -> Option<Seq<char>> {
    if keycode == KEYCODE_A {
        Some(SELECT_ALL_CHORD@)
    } else if keycode == KEYCODE_C {
        Some(COPY_CHORD@)
    } else {
        None
    }
}

/// The watched chord a symbolic hotkey entry claims: the entry is a
/// dictionary, `enabled` is 1, and `value.parameters` holds a keycode at
/// position 1 and a modifier mask at position 2, the mask being bare
/// Command and the keycode that of A or C. Any other shape claims nothing.
pub open spec fn symbolic_hotkey_chord(entry: PlistValue) -> Option<Seq<char>> {
    match entries_of(entry) {
        None => None,
        Some(fields) => if found_integer(fields, "enabled"@) != Some(1i64) {
            None
        } else {
            match found_entries(fields, "value"@) {
                None => None,
                Some(value) => match found_elements(value, "parameters"@) {
                    None => None,
                    Some(params) => match (element_integer(params, 1), element_integer(params, 2)) {
                        (Some(keycode), Some(mods)) => if bare_command(mods) {
                            keycode_chord(keycode)
                        } else {
                            None
                        },
                        _ => None,
                    },
                },
            }
        },
    }
}

/// The warning for a system-wide keyboard shortcut bound to a watched chord.
pub open spec fn hotkey_message(id: Seq<char>, chord: Seq<char>) -> Seq<char> {
    "a system-wide keyboard shortcut (symbolic hotkey "@ + id
        + ", System Settings -> Keyboard -> Keyboard Shortcuts) is bound to "@ + chord
        + ". AutoCopy watches Cmd+A and synthesizes Cmd+C, so every auto-copy would also trigger that system action."@
}

/// The warning for a custom app shortcut that reassigns a watched chord.
pub open spec fn override_message(chord: Seq<char>, title: Seq<char>, scope: Seq<char>) -> Seq<char> {
    chord + " is reassigned to the menu item \""@ + title + "\" for "@ + scope
        + " (System Settings -> Keyboard -> App Shortcuts). Where that override applies, the chord no longer does what AutoCopy assumes \u{2014} auto-copy may misfire or trigger that menu item."@
}

/// The warnings for the hotkey entries, in order.
pub open spec fn hotkey_findings(entries: Seq<PlistEntry>) -> Seq<Seq<char>>
    decreases entries.len(),
{
    if entries.len() == 0 {
        seq![]
    } else {
        let earlier = hotkey_findings(entries.drop_last());
        let entry = entries.last();
        match symbolic_hotkey_chord(entry.value) {
            Some(chord) => earlier.push(hotkey_message(key_name(entry.key), chord)),
            None => earlier,
        }
    }
}

/// The warnings for the `AppleSymbolicHotKeys` preference, if it was set.
pub open spec fn system_shortcut_findings(symbolic_hotkeys: Option<PlistValue>) -> Seq<Seq<char>> {
    match symbolic_hotkeys {
        Some(root) => match entries_of(root) {
            Some(entries) => hotkey_findings(entries),
            None => seq![],
        },
        None => seq![],
    }
}

fn hotkey_message_text(id: &str, chord: &str) -> (message: String)
    ensures
        message@ == hotkey_message(id@, chord@),
{
    let mut message = String::from_str("a system-wide keyboard shortcut (symbolic hotkey ");
    message.append(id);
    message.append(", System Settings -> Keyboard -> Keyboard Shortcuts) is bound to ");
    message.append(chord);
    message.append(
        ". AutoCopy watches Cmd+A and synthesizes Cmd+C, so every auto-copy would also trigger that system action.",
    );
    message
}

fn override_message_text(chord: &str, title: &str, scope: &str) -> (message: String)
    ensures
        message@ == override_message(chord@, title@, scope@),
{
    let mut message = String::from_str(chord);
    message.append(" is reassigned to the menu item \"");
    message.append(title);
    message.append("\" for ");
    message.append(scope);
    message.append(
        " (System Settings -> Keyboard -> App Shortcuts). Where that override applies, the chord no longer does what AutoCopy assumes \u{2014} auto-copy may misfire or trigger that menu item.",
    );
    message
}

/// How a finding names a dictionary key.
fn key_name_text(key: &PlistValue) -> (name: String)
    ensures
        name@ == key_name(*key),
{
    match as_string(key) {
        Some(name) => name,
        None => String::from_str("?"),
    }
}

/// The watched chord one symbolic hotkey entry claims.
fn hotkey_chord(entry: &PlistValue) -> (chord: Option<&'static str>)
    ensures
        match chord {
            Some(c) => symbolic_hotkey_chord(*entry) == Some(c@),
            None => symbolic_hotkey_chord(*entry) is None,
        },
{
    let fields = match as_dictionary(entry) {
        Some(fields) => fields,
        None => return None,
    };
    let enabled = match find(fields, "enabled") {
        Some(v) => as_i64(v),
        None => None,
    };
    if enabled != Some(1i64) {
        return None;
    }
    let value = match find(fields, "value") {
        Some(v) => match as_dictionary(v) {
            Some(value) => value,
            None => return None,
        },
        None => return None,
    };
    let params = match find(value, "parameters") {
        Some(v) => match as_array(v) {
            Some(params) => params,
            None => return None,
        },
        None => return None,
    };
    let keycode = if params.len() > 1 { as_i64(&params[1]) } else { None };
    let mods = if params.len() > 2 { as_i64(&params[2]) } else { None };
    match (keycode, mods) {
        (Some(keycode), Some(mods)) => {
            if !is_bare_command(mods) {
                return None;
            }
            if keycode == KEYCODE_A {
                Some(SELECT_ALL_CHORD)
            } else if keycode == KEYCODE_C {
                Some(COPY_CHORD)
            } else {
                None
            }
        },
        _ => None,
    }
}

/// System Settings -> Keyboard -> Keyboard Shortcuts, stored as
/// `com.apple.symbolichotkeys` -> `AppleSymbolicHotKeys`: a dictionary of
/// hotkey id -> `{enabled, value: {parameters: [character, keycode,
/// modifier mask]}}`. Appends one warning per enabled hotkey bound to bare
/// Cmd+A or Cmd+C, in the dictionary's order.
pub fn check_system_shortcuts(symbolic_hotkeys: &Option<PlistValue>, findings: &mut Vec<String>)
    ensures
        texts(final(findings)@) == texts(old(findings)@) + system_shortcut_findings(*symbolic_hotkeys),
{
    let hotkeys = match symbolic_hotkeys {
        Some(root) => match as_dictionary(root) {
            Some(hotkeys) => hotkeys,
            None => {
                assert(texts(findings@) =~= texts(old(findings)@) + seq![]);
                return;
            },
        },
        None => {
            assert(texts(findings@) =~= texts(old(findings)@) + seq![]);
            return;
        },
    };
    let ghost start = texts(findings@);
    let mut i: usize = 0;
    assert(hotkeys@.take(0) =~= seq![]);
    assert(texts(findings@) =~= start + hotkey_findings(hotkeys@.take(0)));
    while i < hotkeys.len()
        invariant
            i <= hotkeys@.len(),
            start == texts(old(findings)@),
            texts(findings@) == start + hotkey_findings(hotkeys@.take(i as int)),
        decreases hotkeys@.len() - i,
    {
        let entry = &hotkeys[i];
        assert(hotkeys@.take(i + 1).drop_last() =~= hotkeys@.take(i as int));
        assert(hotkeys@.take(i + 1).last() == hotkeys@[i as int]);
        match hotkey_chord(&entry.value) {
            Some(chord) => {
                let id = key_name_text(&entry.key);
                let message = hotkey_message_text(id.as_str(), chord);
                let ghost before = findings@;
                findings.push(message);
                assert(texts(findings@) =~= texts(before).push(message@));
            },
            None => {},
        }
        i = i + 1;
    }
    assert(hotkeys@.take(i as int) =~= hotkeys@);
}

/// The custom app shortcuts (`NSUserKeyEquivalents`) read from one
/// application's preference domain, `None` where that key is not set.
pub struct AppKeyEquivalents {
    pub domain: String,
    pub key_equivalents: Option<PlistValue>,
}

/// Everything the conflict check reads: the symbolic hotkeys, the custom
/// app shortcuts of the global domain, and those of each app domain.
pub struct ShortcutPreferences {
    pub symbolic_hotkeys: Option<PlistValue>,
    pub global_key_equivalents: Option<PlistValue>,
    pub app_key_equivalents: Vec<AppKeyEquivalents>,
}

/// Where a custom app shortcut applies, as a finding names it.
pub open spec fn scope_name(domain: Option<Seq<char>>) -> Seq<char> {
    match domain {
        Some(d) => d,
        None => "every app (global)"@,
    }
}

/// The characters of an optional domain name.
pub open spec fn domain_view(domain: Option<&str>) -> Option<Seq<char>> {
    match domain {
        Some(d) => Some(d@),
        None => None,
    }
}

/// The watched chord a custom app shortcut entry (menu title -> key
/// equivalent) reassigns, if any.
pub open spec fn override_chord(entry: PlistEntry) -> Option<Seq<char>> {
    match text_of(entry.value) {
        Some(key) => watched_chord(key),
        None => None,
    }
}

/// The warnings for the custom app shortcut entries, in order.
pub open spec fn override_findings(entries: Seq<PlistEntry>, scope: Seq<char>) -> Seq<Seq<char>>
    decreases entries.len(),
{
    if entries.len() == 0 {
        seq![]
    } else {
        let earlier = override_findings(entries.drop_last(), scope);
        let entry = entries.last();
        match override_chord(entry) {
            Some(chord) => earlier.push(override_message(chord, key_name(entry.key), scope)),
            None => earlier,
        }
    }
}

/// The warnings for one domain's `NSUserKeyEquivalents`, if it was set.
pub open spec fn key_equivalent_findings(
    domain: Option<Seq<char>>,
    key_equivalents: Option<PlistValue>,
) -> Seq<Seq<char>> {
    match key_equivalents {
        Some(root) => match entries_of(root) {
            Some(entries) => override_findings(entries, scope_name(domain)),
            None => seq![],
        },
        None => seq![],
    }
}

/// The warnings for the app domains, in order.
pub open spec fn app_domain_findings(apps: Seq<AppKeyEquivalents>) -> Seq<Seq<char>>
    decreases apps.len(),
{
    if apps.len() == 0 {
        seq![]
    } else {
        let last = apps.last();
        app_domain_findings(apps.drop_last()) + key_equivalent_findings(
            Some(last.domain@),
            last.key_equivalents,
        )
    }
}

/// The warnings for the custom app shortcuts: the global domain first,
/// then each app domain.
pub open spec fn app_shortcut_findings(
    global: Option<PlistValue>,
    apps: Seq<AppKeyEquivalents>,
) -> Seq<Seq<char>> {
    key_equivalent_findings(None, global) + app_domain_findings(apps)
}

/// Every warning the startup check reports.
pub open spec fn all_findings(preferences: ShortcutPreferences) -> Seq<Seq<char>> {
    system_shortcut_findings(preferences.symbolic_hotkeys) + app_shortcut_findings(
        preferences.global_key_equivalents,
        preferences.app_key_equivalents@,
    )
}

/// System Settings -> Keyboard -> App Shortcuts, stored as
/// `NSUserKeyEquivalents` (menu title -> key equivalent) in one domain
/// (`None` = the global domain). Appends one warning per entry whose key
/// equivalent is bare Cmd+A or Cmd+C, in the dictionary's order.
pub fn check_user_key_equivalents(
    domain: Option<&str>,
    key_equivalents: &Option<PlistValue>,
    findings: &mut Vec<String>,
)
    ensures
        texts(final(findings)@) == texts(old(findings)@) + key_equivalent_findings(
            domain_view(domain),
            *key_equivalents,
        ),
{
    let overrides = match key_equivalents {
        Some(root) => match as_dictionary(root) {
            Some(overrides) => overrides,
            None => {
                assert(texts(findings@) =~= texts(old(findings)@) + seq![]);
                return;
            },
        },
        None => {
            assert(texts(findings@) =~= texts(old(findings)@) + seq![]);
            return;
        },
    };
    let scope = match domain {
        Some(d) => d,
        None => "every app (global)",
    };
    assert(scope@ == scope_name(domain_view(domain)));
    let ghost start = texts(findings@);
    let mut i: usize = 0;
    assert(overrides@.take(0) =~= seq![]);
    assert(texts(findings@) =~= start + override_findings(overrides@.take(0), scope@));
    while i < overrides.len()
        invariant
            i <= overrides@.len(),
            start == texts(old(findings)@),
            texts(findings@) == start + override_findings(overrides@.take(i as int), scope@),
        decreases overrides@.len() - i,
    {
        let entry = &overrides[i];
        assert(overrides@.take(i + 1).drop_last() =~= overrides@.take(i as int));
        assert(overrides@.take(i + 1).last() == overrides@[i as int]);
        match as_string(&entry.value) {
            Some(key) => match watched_chord_name(key.as_str()) {
                Some(chord) => {
                    let title = key_name_text(&entry.key);
                    let message = override_message_text(chord, title.as_str(), scope);
                    let ghost before = findings@;
                    findings.push(message);
                    assert(texts(findings@) =~= texts(before).push(message@));
                },
                None => {},
            },
            None => {},
        }
        i = i + 1;
    }
    assert(overrides@.take(i as int) =~= overrides@);
}

/// The custom app shortcuts of the global domain, then of each app domain.
pub fn check_app_shortcut_overrides(
    global: &Option<PlistValue>,
    apps: &Vec<AppKeyEquivalents>,
    findings: &mut Vec<String>,
)
    ensures
        texts(final(findings)@) == texts(old(findings)@) + app_shortcut_findings(*global, apps@),
{
    check_user_key_equivalents(None, global, findings);
    let ghost after_global = texts(findings@);
    let mut i: usize = 0;
    assert(apps@.take(0) =~= seq![]);
    assert(texts(findings@) =~= after_global + app_domain_findings(apps@.take(0)));
    while i < apps.len()
        invariant
            i <= apps@.len(),
            after_global == texts(old(findings)@) + key_equivalent_findings(None, *global),
            texts(findings@) == after_global + app_domain_findings(apps@.take(i as int)),
        decreases apps@.len() - i,
    {
        let app = &apps[i];
        assert(apps@.take(i + 1).drop_last() =~= apps@.take(i as int));
        assert(apps@.take(i + 1).last() == apps@[i as int]);
        let ghost before = texts(findings@);
        check_user_key_equivalents(Some(app.domain.as_str()), &app.key_equivalents, findings);
        assert(texts(findings@) =~= after_global + app_domain_findings(apps@.take(i + 1)));
        i = i + 1;
    }
    assert(apps@.take(i as int) =~= apps@);
    assert(texts(findings@) =~= texts(old(findings)@) + app_shortcut_findings(*global, apps@));
}

/// Every warning about the watched chords: system-wide keyboard shortcuts
/// first, then custom app shortcuts.
pub fn collect_findings(preferences: &ShortcutPreferences) -> (findings: Vec<String>)
    ensures
        texts(findings@) == all_findings(*preferences),
{
    let mut findings: Vec<String> = Vec::new();
    assert(texts(findings@) =~= seq![]);
    check_system_shortcuts(&preferences.symbolic_hotkeys, &mut findings);
    check_app_shortcut_overrides(
        &preferences.global_key_equivalents,
        &preferences.app_key_equivalents,
        &mut findings,
    );
    assert(texts(findings@) =~= all_findings(*preferences));
    findings
}

/// The preference domain a file in `~/Library/Preferences` stands for:
/// its name without the `.plist` suffix. Hidden files (the on-disk global
/// domain `.GlobalPreferences` among them) and files without that suffix
/// stand for none.
pub open spec fn preference_domain_of(file_name: Seq<char>) -> Option<Seq<char>> {
    let n = file_name.len() as int;
    if n >= 6 && file_name.subrange(n - 6, n) == ".plist"@ {
        let stem = file_name.subrange(0, n - 6);
        if stem.len() > 0 && stem[0] == '.' {
            None
        } else {
            Some(stem)
        }
    } else {
        None
    }
}

/// The preference domains the file names stand for, in order.
pub open spec fn preference_domains_of(file_names: Seq<Seq<char>>) -> Seq<Seq<char>>
    decreases file_names.len(),
{
    if file_names.len() == 0 {
        seq![]
    } else {
        let earlier = preference_domains_of(file_names.drop_last());
        match preference_domain_of(file_names.last()) {
            Some(domain) => earlier.push(domain),
            None => earlier,
        }
    }
}

/// The preference domain one file name stands for, if any.
pub fn preference_domain(file_name: &str) -> (domain: Option<String>)
    ensures
        match domain {
            Some(d) => preference_domain_of(file_name@) == Some(d@),
            None => preference_domain_of(file_name@) is None,
        },
{
    let n = file_name.unicode_len();
    if n < 6 {
        return None;
    }
    let suffix = file_name.substring_char(n - 6, n);
    if !str_eq(suffix, ".plist") {
        return None;
    }
    let stem = file_name.substring_char(0, n - 6);
    if n - 6 > 0 && stem.get_char(0) == '.' {
        return None;
    }
    Some(String::from_str(stem))
}

/// Per-app preference domains: the names of the plist files in
/// `~/Library/Preferences`, without the suffix, hidden files skipped.
pub fn preference_domains(file_names: &Vec<String>) -> (domains: Vec<String>)
    ensures
        texts(domains@) == preference_domains_of(texts(file_names@)),
{
    let mut domains: Vec<String> = Vec::new();
    let mut i: usize = 0;
    assert(texts(file_names@).take(0) =~= seq![]);
    assert(texts(domains@) =~= seq![]);
    while i < file_names.len()
        invariant
            i <= file_names@.len(),
            texts(domains@) == preference_domains_of(texts(file_names@).take(i as int)),
        decreases file_names@.len() - i,
    {
        assert(texts(file_names@).take(i + 1).drop_last() =~= texts(file_names@).take(i as int));
        assert(texts(file_names@).take(i + 1).last() == file_names@[i as int]@);
        match preference_domain(file_names[i].as_str()) {
            Some(domain) => {
                let ghost before = domains@;
                domains.push(domain);
                assert(texts(domains@) =~= texts(before).push(domain@));
            },
            None => {},
        }
        i = i + 1;
    }
    assert(texts(file_names@).take(i as int) =~= texts(file_names@));
    domains
}

/// A preference of an unexpected shape degrades to "no finding": hotkey
/// entries that are not dictionaries, or not enabled, report nothing.
pub proof fn lemma_malformed_hotkeys_report_nothing(entries: Seq<PlistEntry>)
    requires
        forall|i: int|
            0 <= i < entries.len() ==> entries_of(#[trigger] entries[i].value) is None
                || found_integer(entries_of(entries[i].value).unwrap(), "enabled"@) != Some(1i64),
    ensures
        hotkey_findings(entries) == Seq::<Seq<char>>::empty(),
    decreases entries.len(),
{
    if entries.len() > 0 {
        let rest = entries.drop_last();
        assert forall|i: int|
            0 <= i < rest.len() implies entries_of(#[trigger] rest[i].value) is None || found_integer(
                entries_of(rest[i].value).unwrap(),
                "enabled"@,
            ) != Some(1i64) by {
            assert(rest[i] == entries[i]);
        }
        lemma_malformed_hotkeys_report_nothing(rest);
        assert(entries.last() == entries[entries.len() - 1]);
    }
}

/// Custom app shortcut entries whose key equivalent is not a string report
/// nothing.
pub proof fn lemma_non_text_overrides_report_nothing(entries: Seq<PlistEntry>, scope: Seq<char>)
    requires
        forall|i: int| 0 <= i < entries.len() ==> text_of(#[trigger] entries[i].value) is None,
    ensures
        override_findings(entries, scope) == Seq::<Seq<char>>::empty(),
    decreases entries.len(),
{
    if entries.len() > 0 {
        let rest = entries.drop_last();
        assert forall|i: int| 0 <= i < rest.len() implies text_of(#[trigger] rest[i].value) is None by {
            assert(rest[i] == entries[i]);
        }
        lemma_non_text_overrides_report_nothing(rest, scope);
        assert(entries.last() == entries[entries.len() - 1]);
    }
}

/// Exactly the two bare Command chords are watched, and they are told
/// apart: `@a` is the select-all chord and `@c` the copy chord.
pub proof fn lemma_watched_chords(key: Seq<char>)
    ensures
        watched_chord(key) is Some <==> key == "@a"@ || key == "@c"@,
        key == "@a"@ ==> watched_chord(key) == Some(SELECT_ALL_CHORD@),
        key == "@c"@ ==> watched_chord(key) == Some(COPY_CHORD@),
        SELECT_ALL_CHORD@ != COPY_CHORD@,
{
    reveal_strlit("@a");
    reveal_strlit("@c");
    assert("@a"@[1] != "@c"@[1]);
    reveal_strlit("the select-all chord (Cmd+A)");
    reveal_strlit("the copy chord (Cmd+C)");
    assert(SELECT_ALL_CHORD@[4] != COPY_CHORD@[4]);
}

/// Whether a custom app shortcut entry's key equivalent is bare Cmd+A or
/// bare Cmd+C.
pub open spec fn claims_watched_chord(entry: PlistEntry) -> bool {
    text_of(entry.value) == Some("@a"@) || text_of(entry.value) == Some("@c"@)
}

/// Every custom app shortcut entry on a watched chord gets a warning of
/// its own, whatever came before it: appending an `@a` entry appends the
/// select-all warning for its title, an `@c` entry the copy warning, and any
/// other entry nothing.
pub proof fn lemma_each_override_reported(entries: Seq<PlistEntry>, entry: PlistEntry, scope: Seq<char>)
    ensures
        text_of(entry.value) == Some("@a"@) ==> override_findings(entries.push(entry), scope)
            == override_findings(entries, scope).push(
            override_message(SELECT_ALL_CHORD@, key_name(entry.key), scope),
        ),
        text_of(entry.value) == Some("@c"@) ==> override_findings(entries.push(entry), scope)
            == override_findings(entries, scope).push(
            override_message(COPY_CHORD@, key_name(entry.key), scope),
        ),
        !claims_watched_chord(entry) ==> override_findings(entries.push(entry), scope)
            == override_findings(entries, scope),
{
    reveal_strlit("@a");
    reveal_strlit("@c");
    assert("@a"@[1] != "@c"@[1]);
    assert(entries.push(entry).drop_last() =~= entries);
    assert(entries.push(entry).last() == entry);
}

/// There are exactly as many custom app shortcut warnings as entries whose
/// key equivalent is bare Cmd+A or Cmd+C.
pub proof fn lemma_override_count(entries: Seq<PlistEntry>, scope: Seq<char>)
    ensures
        override_findings(entries, scope).len() == entries.filter(
            |entry: PlistEntry| claims_watched_chord(entry),
        ).len(),
    decreases entries.len(),
{
    reveal_with_fuel(Seq::filter, 1);
    if entries.len() > 0 {
        lemma_override_count(entries.drop_last(), scope);
        assert(entries.drop_last().push(entries.last()) =~= entries);
        lemma_each_override_reported(entries.drop_last(), entries.last(), scope);
    }
}

/// Every symbolic hotkey that claims a watched chord gets a warning of its
/// own, whatever came before it; any other entry adds nothing.
pub proof fn lemma_each_hotkey_reported(entries: Seq<PlistEntry>, entry: PlistEntry)
    ensures
        symbolic_hotkey_chord(entry.value) matches Some(chord) ==> hotkey_findings(entries.push(entry))
            == hotkey_findings(entries).push(hotkey_message(key_name(entry.key), chord)),
        symbolic_hotkey_chord(entry.value) is None ==> hotkey_findings(entries.push(entry))
            == hotkey_findings(entries),
{
    assert(entries.push(entry).drop_last() =~= entries);
    assert(entries.push(entry).last() == entry);
}

/// There are exactly as many system shortcut warnings as hotkey entries
/// that claim a watched chord.
pub proof fn lemma_hotkey_count(entries: Seq<PlistEntry>)
    ensures
        hotkey_findings(entries).len() == entries.filter(
            |entry: PlistEntry| symbolic_hotkey_chord(entry.value) is Some,
        ).len(),
    decreases entries.len(),
{
    reveal_with_fuel(Seq::filter, 1);
    if entries.len() > 0 {
        lemma_hotkey_count(entries.drop_last());
        assert(entries.drop_last().push(entries.last()) =~= entries);
        lemma_each_hotkey_reported(entries.drop_last(), entries.last());
    }
}

/// The `value.parameters` array of a symbolic hotkey entry that is a
/// dictionary with `enabled` set to 1.
pub open spec fn enabled_hotkey_parameters(entry: PlistValue) -> Option<Seq<PlistValue>> {
    match entries_of(entry) {
        Some(fields) => if found_integer(fields, "enabled"@) == Some(1i64) {
            match found_entries(fields, "value"@) {
                Some(value) => found_elements(value, "parameters"@),
                None => None,
            }
        } else {
            None
        },
        None => None,
    }
}

/// An enabled symbolic hotkey whose parameters hold keycode `keycode` and
/// a bare Command mask claims the select-all chord for the A key, the copy
/// chord for the C key, and nothing for any other key; a hotkey that is not
/// enabled, or whose mask is not bare Command, claims nothing.
pub proof fn lemma_hotkey_claims_by_keycode(entry: PlistValue, keycode: i64, mods: i64)
    ensures
        enabled_hotkey_parameters(entry) matches Some(params) ==> (element_integer(params, 1)
            == Some(keycode) && element_integer(params, 2) == Some(mods) && bare_command(mods) ==> {
            &&& keycode == 0 ==> symbolic_hotkey_chord(entry) == Some(SELECT_ALL_CHORD@)
            &&& keycode == 8 ==> symbolic_hotkey_chord(entry) == Some(COPY_CHORD@)
            &&& keycode != 0 && keycode != 8 ==> symbolic_hotkey_chord(entry) is None
        }),
        enabled_hotkey_parameters(entry) matches Some(params) ==> (element_integer(params, 2)
            == Some(mods) && !bare_command(mods) ==> symbolic_hotkey_chord(entry) is None),
        enabled_hotkey_parameters(entry) is None ==> symbolic_hotkey_chord(entry) is None,
{
}

/// Every visible plist file names a domain, and that domain is exactly its
/// name without the `.plist` suffix; hidden files name none; and a name
/// that gives a domain is that domain followed by `.plist`.
pub proof fn lemma_domain_is_the_stem(stem: Seq<char>, file_name: Seq<char>)
    ensures
        stem.len() == 0 || stem[0] != '.' ==> preference_domain_of(stem + ".plist"@) == Some(stem),
        stem.len() > 0 && stem[0] == '.' ==> preference_domain_of(stem + ".plist"@) is None,
        preference_domain_of(file_name) matches Some(d) ==> file_name == d + ".plist"@,
{
    reveal_strlit(".plist");
    let name = stem + ".plist"@;
    assert(name.subrange(name.len() - 6, name.len() as int) =~= ".plist"@);
    assert(name.subrange(0, name.len() - 6) =~= stem);
    if preference_domain_of(file_name) is Some {
        let n = file_name.len() as int;
        assert(file_name =~= file_name.subrange(0, n - 6) + file_name.subrange(n - 6, n));
    }
}

/// Every file name that names a domain contributes it, in order, whatever
/// the other names: there are exactly as many domains as such names.
pub proof fn lemma_domain_count(file_names: Seq<Seq<char>>)
    ensures
        preference_domains_of(file_names).len() == file_names.filter(
            |name: Seq<char>| preference_domain_of(name) is Some,
        ).len(),
    decreases file_names.len(),
{
    reveal_with_fuel(Seq::filter, 1);
    if file_names.len() > 0 {
        lemma_domain_count(file_names.drop_last());
    }
}

} // verus!
