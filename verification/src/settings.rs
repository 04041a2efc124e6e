use vstd::prelude::*;
use crate::text::same_text;

verus! {

/// The file the settings are stored in.
pub const SETTINGS_FILE: &'static str = "settings.json";
/// The key under which the telemetry switch is stored.
pub const TELEMETRY_KEY: &'static str = "telemetry_enabled";
/// The key under which the update channel is stored.
pub const UPDATE_CHANNEL_KEY: &'static str = "update_channel";

/// A value read from the settings store, as far as the settings read it.
pub enum SettingValue {
    Bool(bool),
    Text(String),
    /// Any other kind of value (a number, a list, null, ...).
    Other,
}

/// The telemetry switch that a stored value gives: the stored boolean, and
/// off when nothing or something else is stored.
pub open spec fn stored_telemetry(stored: Option<SettingValue>) -> bool {
    match stored {
        Some(SettingValue::Bool(b)) => b,
        _ => false,
    }
}

/// The update channel that a stored value gives: the stored text, and
/// "stable" when nothing or something else is stored.
pub open spec fn stored_channel(stored: Option<SettingValue>) -> Seq<char> {
    match stored {
        Some(SettingValue::Text(s)) => s@,
        _ => "stable"@,
    }
}

/// The channels that updates can come from.
pub open spec fn known_channel(channel: Seq<char>) -> bool {
    channel == "stable"@ || channel == "beta"@
}

/// Whether telemetry is on, given what the store holds under its key.
pub fn telemetry_enabled_from(stored: &Option<SettingValue>) -> (enabled: bool)
    ensures
        enabled == stored_telemetry(*stored),
{
    match stored {
        Some(SettingValue::Bool(b)) => *b,
        _ => false,
    }
}

/// The value to store for the telemetry switch.
pub fn telemetry_setting(enabled: bool) -> (v: SettingValue)
    ensures
        v == SettingValue::Bool(enabled),
{
    SettingValue::Bool(enabled)
}

/// The switch after a toggle, given what the store holds under its key.
pub fn toggled_telemetry(stored: &Option<SettingValue>) -> (next: bool)
    ensures
        next == !stored_telemetry(*stored),
{
    !telemetry_enabled_from(stored)
}

/// The log message that tells of a change of the telemetry switch.
pub fn telemetry_change_note(enabled: bool) -> (note: String)
    ensures
        note@ == (if enabled {
            "telemetry enabled"@
        } else {
            "telemetry disabled"@
        }),
{
    if enabled {
        String::from_str("telemetry enabled")
    } else {
        String::from_str("telemetry disabled")
    }
}

/// The update channel, given what the store holds under its key.
pub fn update_channel_from(stored: &Option<SettingValue>) -> (channel: String)
    ensures
        channel@ == stored_channel(*stored),
{
    match stored {
        Some(SettingValue::Text(s)) => s.clone(),
        _ => String::from_str("stable"),
    }
}

/// Accepts "stable" and "beta" and refuses any other channel name.
pub fn check_update_channel(channel: &str) -> (r: Result<(), String>)
    ensures
        r is Ok <==> known_channel(channel@),
        r matches Err(msg) ==> msg@ == "channel must be 'stable' or 'beta'"@,
{
    if !same_text(channel, "stable") && !same_text(channel, "beta") {
        return Err(String::from_str("channel must be 'stable' or 'beta'"));
    }
    Ok(())
}

/// The value to store for an update channel.
pub fn update_channel_setting(channel: &str) -> (v: SettingValue)
    ensures
        v matches SettingValue::Text(s) && s@ == channel@,
{
    SettingValue::Text(String::from_str(channel))
}

/// Telemetry is off until it is switched on.
pub proof fn lemma_telemetry_off_by_default()
    ensures
        !stored_telemetry(None),
{
}

/// Updates come from the stable channel until another one is chosen.
pub proof fn lemma_stable_channel_by_default()
    ensures
        stored_channel(None) == "stable"@,
        known_channel(stored_channel(None)),
{
}

/// Reading the telemetry switch gives back what was last stored.
pub proof fn lemma_telemetry_read_after_write(enabled: bool)
    ensures
        stored_telemetry(Some(SettingValue::Bool(enabled))) == enabled,
{
}

/// Toggling the telemetry switch twice gives back the first value.
pub proof fn lemma_toggle_twice(stored: Option<SettingValue>)
    ensures
        stored_telemetry(Some(SettingValue::Bool(!stored_telemetry(Some(SettingValue::Bool(
            !stored_telemetry(stored),
        )))))) == stored_telemetry(stored),
{
}

/// Reading the update channel gives back the channel last stored.
pub proof fn lemma_channel_read_after_write(stored: SettingValue, channel: Seq<char>)
    requires
        stored matches SettingValue::Text(s) && s@ == channel,
    ensures
        stored_channel(Some(stored)) == channel,
{
}

} // verus!
