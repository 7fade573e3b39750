//! User settings, their defaults and the migration of older key storage.
use vstd::prelude::*;

verus! {

/// One stored API key with a human-readable label.
#[derive(Debug, Clone)]
pub struct ApiKeyConfig {
    pub key: String,
    pub label: String,
}

/// Pace thresholds are in hundredths of a percent.
pub const DEFAULT_PACE_WARN_THRESHOLD: i64 = 1500;

pub const DEFAULT_PACE_OVER_THRESHOLD: i64 = 2500;

/// The smallest gap between the warn and the over threshold: one percent.
pub const MIN_THRESHOLD_GAP: i64 = 100;

/// Largest warn threshold that the threshold arithmetic handles.
pub const MAX_PACE_THRESHOLD: i64 = 1_000_000_000_000;

/// User preferences of the application.
#[derive(Debug, Clone)]
pub struct AppSettings {
    pub api_keys: Vec<ApiKeyConfig>,
    pub active_api_key_index: usize,
    /// Single key of older versions, kept to migrate it into `api_keys`.
    pub api_key: Option<String>,
    pub refresh_interval_minutes: u32,
    /// Show a percentage of the limit (true) or an absolute amount (false).
    pub show_percentage: bool,
    /// Show what remains (true) or what was used (false).
    pub show_remaining: bool,
    /// Draw the `%` or `$` sign next to the value.
    pub show_unit: bool,
    pub auto_refresh_enabled: bool,
    pub show_window_on_start: bool,
    pub launch_at_login: bool,
    pub global_shortcut: String,
    pub global_shortcut_enabled: bool,
    pub always_on_top: bool,
    pub unfocused_overlay: bool,
    pub decimal_places: u32,
    pub debug_logging_enabled: bool,
    pub debugging_enabled: bool,
    pub menubar_monochrome: bool,
    /// Month pace delta, in hundredths of a percent, above which spending is "behind".
    pub pace_warn_threshold: i64,
    /// Month pace delta, in hundredths of a percent, above which spending is "ahead".
    pub pace_over_threshold: i64,
}

pub fn default_refresh_interval() -> (r: u32)
    ensures
        r == 5,
{
    5
}

pub fn default_true() -> (r: bool)
    ensures
        r,
{
    true
}

pub fn default_false() -> (r: bool)
    ensures
        !r,
{
    false
}

pub fn default_zero() -> (r: u32)
    ensures
        r == 0,
{
    0
}

pub open spec fn default_shortcut_spec() -> Seq<char> {
    seq!['F', '1', '9']
}

pub fn default_shortcut() -> (r: String)
    ensures
        r@ == default_shortcut_spec(),
{
    proof {
        reveal_strlit("F19");
    }
    String::from_str("F19")
}

pub fn default_pace_warn_threshold() -> (r: i64)
    ensures
        r == DEFAULT_PACE_WARN_THRESHOLD,
{
    DEFAULT_PACE_WARN_THRESHOLD
}

pub fn default_pace_over_threshold() -> (r: i64)
    ensures
        r == DEFAULT_PACE_OVER_THRESHOLD,
{
    DEFAULT_PACE_OVER_THRESHOLD
}

impl AppSettings {
    /// Thresholds within the range that their arithmetic handles.
    pub open spec fn wf(&self) -> bool {
        self.pace_warn_threshold <= MAX_PACE_THRESHOLD
    }

    /// The settings of a fresh installation.
    pub open spec fn is_default(&self) -> bool {
        &&& self.api_keys@.len() == 0
        &&& self.api_key is None
        &&& self.has_default_preferences()
    }

    /// Everything but the stored keys as on a fresh installation.
    pub open spec fn has_default_preferences(&self) -> bool {
        &&& self.active_api_key_index == 0
        &&& self.refresh_interval_minutes == 5
        &&& self.show_percentage
        &&& self.show_remaining
        &&& self.show_unit
        &&& self.auto_refresh_enabled
        &&& self.show_window_on_start
        &&& self.launch_at_login
        &&& self.global_shortcut@ == default_shortcut_spec()
        &&& self.global_shortcut_enabled
        &&& !self.always_on_top
        &&& self.unfocused_overlay
        &&& self.decimal_places == 0
        &&& !self.debug_logging_enabled
        &&& !self.debugging_enabled
        &&& !self.menubar_monochrome
        &&& self.pace_warn_threshold == DEFAULT_PACE_WARN_THRESHOLD
        &&& self.pace_over_threshold == DEFAULT_PACE_OVER_THRESHOLD
    }
}

impl Default for AppSettings {
    fn default() -> (r: Self)
        ensures
            r.is_default(),
            r.wf(),
    {
        AppSettings {
            api_keys: Vec::new(),
            active_api_key_index: 0,
            api_key: None,
            refresh_interval_minutes: default_refresh_interval(),
            show_percentage: true,
            show_remaining: true,
            show_unit: true,
            auto_refresh_enabled: true,
            show_window_on_start: true,
            launch_at_login: true,
            global_shortcut: default_shortcut(),
            global_shortcut_enabled: true,
            always_on_top: false,
            unfocused_overlay: true,
            decimal_places: 0,
            debug_logging_enabled: false,
            debugging_enabled: false,
            menubar_monochrome: false,
            pace_warn_threshold: DEFAULT_PACE_WARN_THRESHOLD,
            pace_over_threshold: DEFAULT_PACE_OVER_THRESHOLD,
        }
    }
}

pub open spec fn legacy_key_label() -> Seq<char> {
    "OpenRouter"@
}

/// Settings of older versions held a single key in `api_key`: where the list
/// of keys is empty, that key becomes its one entry. Returns whether the
/// settings changed.
pub fn migrate_legacy_api_key(settings: &mut AppSettings) -> (changed: bool)
    ensures
        changed == (old(settings).api_keys@.len() == 0 && old(settings).api_key is Some),
        !changed ==> *final(settings) == *old(settings),
        changed ==> {
            &&& final(settings).api_keys@.len() == 1
            &&& Some(final(settings).api_keys@[0].key) == old(settings).api_key
            &&& final(settings).api_keys@[0].label@ == legacy_key_label()
            &&& *final(settings) == (AppSettings { api_keys: final(settings).api_keys, ..*old(settings) })
        },
{
    if settings.api_keys.len() == 0 {
        if let Some(key) = &settings.api_key {
            proof {
                reveal_strlit("OpenRouter");
            }
            let entry = ApiKeyConfig { key: key.clone(), label: String::from_str("OpenRouter") };
            settings.api_keys.push(entry);
            return true;
        }
    }
    false
}

/// The settings of a first start: the defaults, with the key found in the
/// key file of older versions, if any, as the one stored key.
pub fn settings_with_legacy_key(key: Option<String>) -> (r: AppSettings)
    ensures
        r.wf(),
        key is None ==> r.is_default(),
        key matches Some(k) ==> {
            &&& r.api_key == Some(k)
            &&& r.api_keys@.len() == 1
            &&& r.api_keys@[0].key == k
            &&& r.api_keys@[0].label@ == legacy_key_label()
            &&& r.has_default_preferences()
        },
{
    let mut s = AppSettings::default();
    if let Some(k) = key {
        s.api_key = Some(k.clone());
        proof {
            reveal_strlit("OpenRouter");
        }
        s.api_keys.push(ApiKeyConfig { key: k, label: String::from_str("OpenRouter") });
    }
    s
}

/// Seconds between two automatic refreshes, at least a minute; `None` where
/// automatic refresh is off.
pub fn auto_refresh_interval_secs(settings: &AppSettings) -> (r: Option<u64>)
    ensures
        !settings.auto_refresh_enabled ==> r is None,
        settings.auto_refresh_enabled ==> (r matches Some(secs) && secs == 60 * (
        if settings.refresh_interval_minutes < 1 {
            1
        } else {
            settings.refresh_interval_minutes as int
        })),
{
    if !settings.auto_refresh_enabled {
        return None;
    }
    let minutes: u64 = if settings.refresh_interval_minutes < 1 {
        1
    } else {
        settings.refresh_interval_minutes as u64
    };
    Some(minutes * 60)
}

} // verus!
