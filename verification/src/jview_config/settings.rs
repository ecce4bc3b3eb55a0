//! The settings that one pane writes and another reads, held in a value
//! that is handed to whoever needs it.
//!
//! The unit name is the filter of the log pane. The empty name stands for
//! "no filter".

use vstd::prelude::*;

verus! {

/// The shared settings of one session.
#[derive(Debug, PartialEq, Eq)]
pub struct Settings {
    unit: String,
    max_connections: usize,
    logging_enabled: bool,
}

/// What a `Settings` value holds.
pub struct SettingsView {
    /// The selected unit name; empty when none is selected.
    pub unit: Seq<char>,
    pub max_connections: usize,
    pub logging_enabled: bool,
}

impl SettingsView {
    /// The filter that the selected unit stands for.
    pub open spec fn filter(self) -> Option<Seq<char>> {
        if self.unit.len() == 0 {
            None
        } else {
            Some(self.unit)
        }
    }
}

impl View for Settings {
    type V = SettingsView;

    closed spec fn view(&self) -> SettingsView {
        SettingsView {
            unit: self.unit@,
            max_connections: self.max_connections,
            logging_enabled: self.logging_enabled,
        }
    }
}

impl Settings {
    /// The settings a session starts with: no unit, ten connections,
    /// logging on.
    pub fn new() -> (r: Settings)
        ensures
            r@ == (SettingsView { unit: Seq::empty(), max_connections: 10, logging_enabled: true }),
    {
        Settings { unit: String::new(), max_connections: 10, logging_enabled: true }
    }
}

/// Selects the unit `name`.
pub fn set_unit(settings: &mut Settings, name: &str)
    ensures
        final(settings)@ == (SettingsView { unit: name@, ..old(settings)@ }),
{
    settings.unit = name.to_owned();
}

/// The selected unit name, empty when none is selected.
pub fn get_unit(settings: &Settings) -> (name: String)
    ensures
        name@ == settings@.unit,
{
    settings.unit.clone()
}

/// Drops the selection.
pub fn clear_unit(settings: &mut Settings)
    ensures
        final(settings)@ == (SettingsView { unit: Seq::empty(), ..old(settings)@ }),
        final(settings)@.filter() is None,
{
    settings.unit = String::new();
}

/// Sets the maximum number of connections.
pub fn set_max_connections(settings: &mut Settings, value: usize)
    ensures
        final(settings)@ == (SettingsView { max_connections: value, ..old(settings)@ }),
{
    settings.max_connections = value;
}

/// The maximum number of connections.
pub fn get_max_connections(settings: &Settings) -> (value: usize)
    ensures
        value == settings@.max_connections,
{
    settings.max_connections
}

/// Turns logging on or off.
pub fn set_logging_enabled(settings: &mut Settings, enabled: bool)
    ensures
        final(settings)@ == (SettingsView { logging_enabled: enabled, ..old(settings)@ }),
{
    settings.logging_enabled = enabled;
}

/// Whether logging is on.
pub fn is_logging_enabled(settings: &Settings) -> (enabled: bool)
    ensures
        enabled == settings@.logging_enabled,
{
    settings.logging_enabled
}

} // verus!
