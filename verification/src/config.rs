//! Saved print-dialog preferences: the last printer used, global default
//! settings and per-printer overrides.

use vstd::prelude::*;
use crate::maps::{StrMap, text_map, table_text};
use vstd::std_specs::cmp::PartialEqSpecImpl;
use crate::text::concat3;

verus! {

/// Saved user preferences for the print dialog.
///
/// Keeps track of the last selected printer, global default settings,
/// and per-printer customized settings (e.g. paper size, quality options).
#[derive(Debug, Default)]
pub struct PrinterConfig {
    /// Last-used printer identifier.
    pub last_printer_id: Option<String>,
    /// Last-used backend name.
    pub last_backend: Option<String>,
    /// Global settings that apply to all printers unless overridden.
    pub global_settings: StrMap<String>,
    /// Per-printer settings keyed by `"printer_id@backend"`.
    pub printer_settings: StrMap<StrMap<String>>,
}

impl Clone for PrinterConfig {
    /// A copy with the same last printer, the same global settings and the
    /// same settings for every printer.
    fn clone(&self) -> (r: Self)
        ensures
            r.last_printer_id == self.last_printer_id,
            r.last_backend == self.last_backend,
            r.global_settings@ == self.global_settings@,
            r.printer_settings@.dom() == self.printer_settings@.dom(),
            forall|k: Seq<char>| #[trigger] r.printer_settings@.contains_key(k)
                ==> r.printer_settings@[k]@ == self.printer_settings@[k]@,
    {
        let last_printer_id = match &self.last_printer_id {
            Some(s) => Some(s.clone()),
            None => None,
        };
        let last_backend = match &self.last_backend {
            Some(s) => Some(s.clone()),
            None => None,
        };
        PrinterConfig {
            last_printer_id,
            last_backend,
            global_settings: self.global_settings.clone_map(),
            printer_settings: self.printer_settings.clone_table(),
        }
    }
}

/// The characters of an optional string.
pub open spec fn opt_text(o: Option<String>) -> Option<Seq<char>> {
    match o {
        Some(s) => Some(s@),
        None => None,
    }
}

/// Whether two optional strings are both absent or hold the same text.
fn same_opt_text(a: &Option<String>, b: &Option<String>) -> (r: bool)
    ensures
        r == (opt_text(*a) == opt_text(*b)),
{
    match (a, b) {
        (None, None) => true,
        (Some(x), Some(y)) => *x == *y,
        _ => false,
    }
}

impl PartialEq for PrinterConfig {
    fn eq(&self, other: &Self) -> (r: bool) {
        same_opt_text(&self.last_printer_id, &other.last_printer_id)
            && same_opt_text(&self.last_backend, &other.last_backend)
            && self.global_settings.same_entries(&other.global_settings)
            && self.printer_settings.same_table(&other.printer_settings)
    }
}

impl PartialEqSpecImpl for PrinterConfig {
    open spec fn obeys_eq_spec() -> bool {
        true
    }

    /// Two configurations are equal when they name the same last printer
    /// and backend and hold the same texts under the same keys.
    open spec fn eq_spec(&self, other: &Self) -> bool {
        &&& opt_text(self.last_printer_id) == opt_text(other.last_printer_id)
        &&& opt_text(self.last_backend) == opt_text(other.last_backend)
        &&& text_map(self.global_settings@) == text_map(other.global_settings@)
        &&& table_text(self.printer_settings@) == table_text(other.printer_settings@)
    }
}

/// The key under which the settings of a printer are stored.
pub open spec fn printer_key(printer_id: Seq<char>, backend: Seq<char>) -> Seq<char> {
    printer_id + "@"@ + backend
}

/// The characters of an optional string slice.
pub open spec fn opt_str(o: Option<&str>) -> Option<Seq<char>> {
    match o {
        Some(s) => Some(s@),
        None => None,
    }
}

impl PrinterConfig {
    /// The overrides stored for a printer (empty when it has none).
    pub open spec fn overrides(self, printer_id: Seq<char>, backend: Seq<char>) -> Map<Seq<char>, String> {
        let key = printer_key(printer_id, backend);
        if self.printer_settings@.contains_key(key) {
            self.printer_settings@[key]@
        } else {
            Map::empty()
        }
    }

    /// The value of global setting `key`, if set.
    pub open spec fn global_value(self, key: Seq<char>) -> Option<Seq<char>> {
        if self.global_settings@.contains_key(key) {
            Some(self.global_settings@[key]@)
        } else {
            None
        }
    }

    /// The value of setting `key` for a printer: its own override, else
    /// the global setting.
    pub open spec fn setting_value(self, printer_id: Seq<char>, backend: Seq<char>, key: Seq<char>) -> Option<Seq<char>> {
        let own = self.overrides(printer_id, backend);
        if own.contains_key(key) {
            Some(own[key]@)
        } else {
            self.global_value(key)
        }
    }

    /// All settings of a printer: the global ones, overridden by its own.
    pub open spec fn merged(self, printer_id: Seq<char>, backend: Seq<char>) -> Map<Seq<char>, String> {
        self.global_settings@.union_prefer_right(self.overrides(printer_id, backend))
    }

    /// What [`PrinterConfig::set_global_setting`] does.
    pub open spec fn set_global_post(self, after: PrinterConfig, key: String, value: String) -> bool {
        &&& after.global_settings@ == self.global_settings@.insert(key@, value)
        &&& after.printer_settings@ == self.printer_settings@
        &&& after.last_printer_id == self.last_printer_id
        &&& after.last_backend == self.last_backend
    }

    /// What [`PrinterConfig::set_settings_for`] does.
    pub open spec fn set_settings_post(
        self,
        after: PrinterConfig,
        printer_id: Seq<char>,
        backend: Seq<char>,
        settings: StrMap<String>,
    ) -> bool {
        &&& after.printer_settings@ == self.printer_settings@.insert(printer_key(printer_id, backend), settings)
        &&& after.global_settings@ == self.global_settings@
        &&& after.last_printer_id == self.last_printer_id
        &&& after.last_backend == self.last_backend
    }

    /// What [`PrinterConfig::set_setting_for`] does.
    pub open spec fn set_setting_post(
        self,
        after: PrinterConfig,
        printer_id: Seq<char>,
        backend: Seq<char>,
        key: String,
        value: String,
    ) -> bool {
        let pk = printer_key(printer_id, backend);
        &&& after.printer_settings@.contains_key(pk)
        &&& after.printer_settings@ == self.printer_settings@.insert(pk, after.printer_settings@[pk])
        &&& after.printer_settings@[pk]@ == self.overrides(printer_id, backend).insert(key@, value)
        &&& after.global_settings@ == self.global_settings@
        &&& after.last_printer_id == self.last_printer_id
        &&& after.last_backend == self.last_backend
    }

    /// What [`PrinterConfig::remove_settings_for`] does.
    pub open spec fn remove_settings_post(self, after: PrinterConfig, printer_id: Seq<char>, backend: Seq<char>) -> bool {
        &&& after.printer_settings@ == self.printer_settings@.remove(printer_key(printer_id, backend))
        &&& after.global_settings@ == self.global_settings@
        &&& after.last_printer_id == self.last_printer_id
        &&& after.last_backend == self.last_backend
    }
}

fn key_for(printer_id: &str, backend: &str) -> (r: String)
    ensures
        r@ == printer_key(printer_id@, backend@),
{
    concat3(printer_id, "@", backend)
}

impl PrinterConfig {
    /// Creates a new empty `PrinterConfig`.
    pub fn new() -> (r: Self)
        ensures
            r.last_printer_id is None,
            r.last_backend is None,
            r.global_settings@ == Map::<Seq<char>, String>::empty(),
            r.printer_settings@ == Map::<Seq<char>, StrMap<String>>::empty(),
    {
        PrinterConfig {
            last_printer_id: None,
            last_backend: None,
            global_settings: StrMap::new(),
            printer_settings: StrMap::new(),
        }
    }

    /// Returns `true` if this config has a saved printer.
    pub fn has_printer(&self) -> (r: bool)
        ensures
            r == self.last_printer_id is Some,
    {
        self.last_printer_id.is_some()
    }

    /// Sets the last-used printer and backend.
    pub fn set_last_printer(&mut self, printer_id: &str, backend: &str)
        ensures
            final(self).last_printer_id matches Some(p) && p@ == printer_id@,
            final(self).last_backend matches Some(b) && b@ == backend@,
            final(self).global_settings@ == old(self).global_settings@,
            final(self).printer_settings@ == old(self).printer_settings@,
    {
        self.last_printer_id = Some(String::from_str(printer_id));
        self.last_backend = Some(String::from_str(backend));
    }

    /// Gets a global setting.
    pub fn get_global_setting(&self, key: &str) -> (r: Option<&str>)
        ensures
            opt_str(r) == self.global_value(key@),
    {
        match self.global_settings.get(key) {
            Some(v) => Some(v.as_str()),
            None => None,
        }
    }

    /// Sets a global setting.
    pub fn set_global_setting(&mut self, key: String, value: String)
        ensures
            old(self).set_global_post(*final(self), key, value),
    {
        self.global_settings.insert(key, value);
    }

    /// Gets the merged settings for a specific printer: the global
    /// settings, where the printer's own settings override global values.
    pub fn get_settings_for(&self, printer_id: &str, backend: &str) -> (r: StrMap<String>)
        ensures
            r@ == self.merged(printer_id@, backend@),
    {
        let mut merged = self.global_settings.clone_map();
        let key = key_for(printer_id, backend);
        match self.printer_settings.get(key.as_str()) {
            Some(specific) => {
                merged.extend_from(specific);
            },
            None => {
                assert(merged@.union_prefer_right(Map::<Seq<char>, String>::empty()) =~= merged@);
            },
        }
        merged
    }

    /// Updates or replaces the settings for a specific printer.
    pub fn set_settings_for(&mut self, printer_id: &str, backend: &str, settings: StrMap<String>)
        ensures
            old(self).set_settings_post(*final(self), printer_id@, backend@, settings),
    {
        let key = key_for(printer_id, backend);
        self.printer_settings.insert(key, settings);
    }

    /// Sets or updates a single setting for a specific printer.
    pub fn set_setting_for(&mut self, printer_id: &str, backend: &str, key: String, value: String)
        ensures
            old(self).set_setting_post(*final(self), printer_id@, backend@, key, value),
    {
        let pk = key_for(printer_id, backend);
        let ghost old_table = self.printer_settings@;
        let mut own = match self.printer_settings.take(pk.as_str()) {
            Some(m) => m,
            None => StrMap::new(),
        };
        own.insert(key, value);
        let ghost own_now = own;
        let ghost pks = pk@;
        self.printer_settings.insert(pk, own);
        assert(old_table.remove(pks).insert(pks, own_now) =~= old_table.insert(pks, own_now));
    }

    /// Gets a setting for a printer: its own value, else the global one.
    pub fn get_setting_for(&self, printer_id: &str, backend: &str, key: &str) -> (r: Option<&str>)
        ensures
            opt_str(r) == self.setting_value(printer_id@, backend@, key@),
    {
        let pk = key_for(printer_id, backend);
        if let Some(own) = self.printer_settings.get(pk.as_str()) {
            if let Some(v) = own.get(key) {
                return Some(v.as_str());
            }
        }
        self.get_global_setting(key)
    }

    /// Removes all printer-specific settings stored for a printer.
    pub fn remove_settings_for(&mut self, printer_id: &str, backend: &str)
        ensures
            old(self).remove_settings_post(*final(self), printer_id@, backend@),
    {
        let key = key_for(printer_id, backend);
        self.printer_settings.remove(key.as_str());
    }
}

/// A setting written for a printer is read back for that printer.
pub proof fn law_setting_read_after_write(
    before: PrinterConfig,
    after: PrinterConfig,
    printer_id: Seq<char>,
    backend: Seq<char>,
    key: String,
    value: String,
)
    requires
        before.set_setting_post(after, printer_id, backend, key, value),
    ensures
        after.setting_value(printer_id, backend, key@) == Some(value@),
{
}

/// Writing a setting for a printer changes no other reading: neither
/// another key of that printer nor any key of a printer stored under
/// another key.
pub proof fn law_setting_write_is_local(
    before: PrinterConfig,
    after: PrinterConfig,
    printer_id: Seq<char>,
    backend: Seq<char>,
    key: String,
    value: String,
    other_id: Seq<char>,
    other_backend: Seq<char>,
    other_key: Seq<char>,
)
    requires
        before.set_setting_post(after, printer_id, backend, key, value),
        printer_key(other_id, other_backend) != printer_key(printer_id, backend) || other_key != key@,
    ensures
        after.setting_value(other_id, other_backend, other_key) == before.setting_value(other_id, other_backend, other_key),
{
}

/// A global setting written is read back globally, and for every printer
/// that does not override that key.
pub proof fn law_global_read_after_write(
    before: PrinterConfig,
    after: PrinterConfig,
    key: String,
    value: String,
    printer_id: Seq<char>,
    backend: Seq<char>,
)
    requires
        before.set_global_post(after, key, value),
        !before.overrides(printer_id, backend).contains_key(key@),
    ensures
        after.global_value(key@) == Some(value@),
        after.setting_value(printer_id, backend, key@) == Some(value@),
{
}

/// After a printer's settings are removed, every setting read for it is
/// the global one.
pub proof fn law_removed_printer_falls_back(
    before: PrinterConfig,
    after: PrinterConfig,
    printer_id: Seq<char>,
    backend: Seq<char>,
    key: Seq<char>,
)
    requires
        before.remove_settings_post(after, printer_id, backend),
    ensures
        after.setting_value(printer_id, backend, key) == before.global_value(key),
{
}

/// After a printer's settings are replaced, a setting read for it is the
/// new value when the replacement has the key, else the global one.
pub proof fn law_replaced_settings_are_read(
    before: PrinterConfig,
    after: PrinterConfig,
    printer_id: Seq<char>,
    backend: Seq<char>,
    settings: StrMap<String>,
    key: Seq<char>,
)
    requires
        before.set_settings_post(after, printer_id, backend, settings),
    ensures
        after.setting_value(printer_id, backend, key) == (if settings@.contains_key(key) {
            Some(settings@[key]@)
        } else {
            before.global_value(key)
        }),
{
}

/// The merged settings of a printer hold exactly the settings read for it
/// one key at a time.
pub proof fn law_merged_agrees_with_lookup(config: PrinterConfig, printer_id: Seq<char>, backend: Seq<char>, key: Seq<char>)
    ensures
        config.merged(printer_id, backend).contains_key(key) <==> config.setting_value(printer_id, backend, key) is Some,
        config.merged(printer_id, backend).contains_key(key) ==> config.setting_value(printer_id, backend, key)
            == Some(config.merged(printer_id, backend)[key]@),
{
}

/// Removing the settings of one printer changes no reading for a printer
/// stored under another key.
pub proof fn law_removed_settings_are_local(
    before: PrinterConfig,
    after: PrinterConfig,
    printer_id: Seq<char>,
    backend: Seq<char>,
    other_id: Seq<char>,
    other_backend: Seq<char>,
    key: Seq<char>,
)
    requires
        before.remove_settings_post(after, printer_id, backend),
        printer_key(other_id, other_backend) != printer_key(printer_id, backend),
    ensures
        after.overrides(other_id, other_backend) == before.overrides(other_id, other_backend),
        after.setting_value(other_id, other_backend, key) == before.setting_value(other_id, other_backend, key),
{
}

/// Replacing the settings of one printer changes no reading for a printer
/// stored under another key.
pub proof fn law_replaced_settings_are_local(
    before: PrinterConfig,
    after: PrinterConfig,
    printer_id: Seq<char>,
    backend: Seq<char>,
    settings: StrMap<String>,
    other_id: Seq<char>,
    other_backend: Seq<char>,
    key: Seq<char>,
)
    requires
        before.set_settings_post(after, printer_id, backend, settings),
        printer_key(other_id, other_backend) != printer_key(printer_id, backend),
    ensures
        after.overrides(other_id, other_backend) == before.overrides(other_id, other_backend),
        after.setting_value(other_id, other_backend, key) == before.setting_value(other_id, other_backend, key),
{
}

} // verus!
