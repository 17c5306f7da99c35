//! The per-platform configuration snapshot that a bundle carries.
use crate::error::NatyError;
use crate::platform::Platform;
use crate::settings::{command_override, AppSettings};
use vstd::prelude::*;

verus! {

/// `toml::map::Map`, the table type of the `toml` crate, carried opaquely.
#[verifier::external_type_specification]
#[verifier::external_body]
#[verifier::reject_recursive_types(K)]
#[verifier::reject_recursive_types(V)]
pub struct ExTomlMap<K, V>(toml::map::Map<K, V>);

/// `toml::Value`, a value of a TOML table, carried opaquely.
#[verifier::external_type_specification]
#[verifier::external_body]
pub struct ExTomlValue(toml::Value);

/// The error of `toml::to_string_pretty`, carried opaquely.
#[verifier::external_type_specification]
#[verifier::external_body]
pub struct ExTomlSerError(toml::ser::Error);

/// A value of the snapshot, as the contracts see it.
pub enum ConfigEntry {
    Text(Seq<char>),
    Flag(bool),
    Number(u32),
}

/// A value of the snapshot.
#[derive(Debug)]
pub enum ConfigValue {
    Text(String),
    Flag(bool),
    Number(u32),
}

impl View for ConfigValue {
    type V = ConfigEntry;

    open spec fn view(&self) -> ConfigEntry {
        match self {
            ConfigValue::Text(s) => ConfigEntry::Text(s@),
            ConfigValue::Flag(b) => ConfigEntry::Flag(*b),
            ConfigValue::Number(n) => ConfigEntry::Number(*n),
        }
    }
}

/// The keys of a TOML table and what each holds.
pub uninterp spec fn table_entries(t: toml::Table) -> Map<Seq<char>, ConfigEntry>;

/// The pretty TOML text of a table with these entries.
pub uninterp spec fn toml_text(entries: Map<Seq<char>, ConfigEntry>) -> Seq<char>;

/// Relies on `toml::map::Map::new`: the table is empty.
#[verifier::external_body]
fn new_table() -> (r: toml::Table)
    ensures
        table_entries(r).is_empty(),
{
    toml::Table::new()
}

/// Relies on `toml::map::Map::insert`: the key now holds the value, whatever
/// it held before, and the other keys are untouched.
#[verifier::external_body]
fn table_insert(t: &mut toml::Table, key: &str, value: ConfigValue)
    ensures
        table_entries(*final(t)) == table_entries(*old(t)).insert(key@, value@),
{
    let v = match value {
        ConfigValue::Text(s) => toml::Value::String(s),
        ConfigValue::Flag(b) => toml::Value::Boolean(b),
        ConfigValue::Number(n) => toml::Value::Integer(n.into()),
    };
    t.insert(key.to_string(), v);
}

/// Relies on `toml::to_string_pretty`: it fails only on values that TOML
/// cannot hold (unsupported types, `None`, non-string keys, bad dates), none
/// of which a table of strings, booleans and integers holds; the text depends
/// on the table's entries alone.
#[verifier::external_body]
fn render_table(t: &toml::Table) -> (r: Result<String, toml::ser::Error>)
    ensures
        r is Ok,
        r matches Ok(s) ==> s@ == toml_text(table_entries(*t)),
{
    toml::to_string_pretty(t)
}

/// The entries of the snapshot for the bundle of `p`: the settings that the
/// app reads at start-up, without the output directory, the platforms, the
/// icon and the per-platform options, with the command configured for `p`.
pub open spec fn snapshot_entries(s: AppSettings, p: Platform) -> Map<Seq<char>, ConfigEntry> {
    let base = Map::<Seq<char>, ConfigEntry>::empty().insert(
        "target_url"@,
        ConfigEntry::Text(s.target_url@),
    ).insert("always_on_top"@, ConfigEntry::Flag(s.always_on_top)).insert(
        "full_screen"@,
        ConfigEntry::Flag(s.full_screen),
    ).insert("height"@, ConfigEntry::Number(s.height)).insert(
        "width"@,
        ConfigEntry::Number(s.width),
    ).insert("hide_window_frame"@, ConfigEntry::Flag(s.hide_window_frame)).insert(
        "show_menu_bar"@,
        ConfigEntry::Flag(s.show_menu_bar),
    ).insert("max_width"@, ConfigEntry::Number(s.max_width)).insert(
        "max_height"@,
        ConfigEntry::Number(s.max_height),
    ).insert("min_width"@, ConfigEntry::Number(s.min_width)).insert(
        "min_height"@,
        ConfigEntry::Number(s.min_height),
    );
    let named = match s.name {
        Some(n) => base.insert("name"@, ConfigEntry::Text(n@)),
        None => base,
    };
    match command_override(s, p) {
        Some(c) => named.insert("command"@, ConfigEntry::Text(c@)),
        None => named,
    }
}

/// The snapshot of `settings` for the bundle of `p`, as a TOML table.
pub fn snapshot_table(settings: &AppSettings, p: Platform) -> (r: toml::Table)
    ensures
        table_entries(r) == snapshot_entries(*settings, p),
{
    let mut t = new_table();
    table_insert(&mut t, "target_url", ConfigValue::Text(settings.target_url.clone()));
    table_insert(&mut t, "always_on_top", ConfigValue::Flag(settings.always_on_top));
    table_insert(&mut t, "full_screen", ConfigValue::Flag(settings.full_screen));
    table_insert(&mut t, "height", ConfigValue::Number(settings.height));
    table_insert(&mut t, "width", ConfigValue::Number(settings.width));
    table_insert(&mut t, "hide_window_frame", ConfigValue::Flag(settings.hide_window_frame));
    table_insert(&mut t, "show_menu_bar", ConfigValue::Flag(settings.show_menu_bar));
    table_insert(&mut t, "max_width", ConfigValue::Number(settings.max_width));
    table_insert(&mut t, "max_height", ConfigValue::Number(settings.max_height));
    table_insert(&mut t, "min_width", ConfigValue::Number(settings.min_width));
    table_insert(&mut t, "min_height", ConfigValue::Number(settings.min_height));
    if let Some(n) = &settings.name {
        table_insert(&mut t, "name", ConfigValue::Text(n.clone()));
    }
    if let Some(c) = settings.command_for(p) {
        table_insert(&mut t, "command", ConfigValue::Text(c));
    }
    t
}

/// The snapshot of `settings` for the bundle of `p`, as TOML text.
pub fn serialize_snapshot(settings: &AppSettings, p: Platform) -> (r: Result<String, NatyError>)
    ensures
        r matches Ok(s) && s@ == toml_text(snapshot_entries(*settings, p)),
{
    let t = snapshot_table(settings, p);
    match render_table(&t) {
        Ok(s) => Ok(s),
        Err(_) => Err(NatyError::Serialization),
    }
}

/// Whether two settings differ at most in the commands configured for
/// platforms other than `p`.
pub open spec fn same_but_other_commands(s: AppSettings, t: AppSettings, p: Platform) -> bool {
    &&& t.target_url == s.target_url
    &&& t.name == s.name
    &&& t.always_on_top == s.always_on_top
    &&& t.full_screen == s.full_screen
    &&& t.height == s.height
    &&& t.width == s.width
    &&& t.hide_window_frame == s.hide_window_frame
    &&& t.show_menu_bar == s.show_menu_bar
    &&& t.max_width == s.max_width
    &&& t.max_height == s.max_height
    &&& t.min_width == s.min_width
    &&& t.min_height == s.min_height
    &&& command_override(t, p) == command_override(s, p)
}

/// The snapshot for `p` holds under `command` exactly the command configured
/// for `p`, and nothing under that key when none is; changing the commands
/// of the other platforms leaves it as it is.
pub proof fn lemma_snapshot_command(s: AppSettings, t: AppSettings, p: Platform)
    requires
        same_but_other_commands(s, t, p),
    ensures
        command_override(s, p) matches Some(c) ==> snapshot_entries(s, p).contains_key(
            "command"@,
        ) && snapshot_entries(s, p)["command"@] == ConfigEntry::Text(c@),
        command_override(s, p) is None ==> !snapshot_entries(s, p).contains_key("command"@),
        snapshot_entries(t, p) == snapshot_entries(s, p),
{
    reveal_strlit("command");
    reveal_strlit("name");
    reveal_strlit("target_url");
    reveal_strlit("always_on_top");
    reveal_strlit("full_screen");
    reveal_strlit("height");
    reveal_strlit("width");
    reveal_strlit("hide_window_frame");
    reveal_strlit("show_menu_bar");
    reveal_strlit("max_width");
    reveal_strlit("max_height");
    reveal_strlit("min_width");
    reveal_strlit("min_height");
    assert("command"@[0] != "name"@[0] && "command"@[0] != "target_url"@[0] && "command"@[0]
        != "height"@[0] && "command"@[0] != "width"@[0] && "command"@[0] != "always_on_top"@[0]
        && "command"@[0] != "full_screen"@[0] && "command"@[0] != "hide_window_frame"@[0]
        && "command"@[0] != "show_menu_bar"@[0] && "command"@[0] != "max_width"@[0]
        && "command"@[0] != "max_height"@[0] && "command"@[0] != "min_width"@[0]
        && "command"@[0] != "min_height"@[0]);
}

} // verus!
