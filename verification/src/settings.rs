//! Persisted application settings and the durable key-value document
//! that backs them.
//!
//! The settings store is a single JSON-like document with four well-known
//! keys; [`StoreDoc`] models that document as the typed value held under
//! each key, or `None` where the key is absent. Loading never fails: a
//! missing key resolves to its documented default. The process shell is
//! responsible for reading the document from disk and writing it back;
//! everything between those two edges is decided here.

use vstd::prelude::*;

verus! {

/// Last-known window geometry, captured when the window closes and
/// applied again at window-construction time.
#[derive(Debug, Clone, Copy, PartialEq, Eq, Structural)]
pub struct WindowState {
    /// Inner width in physical pixels.
    pub width: u32,
    /// Inner height in physical pixels.
    pub height: u32,
    /// Outer position, horizontal.
    pub x: i32,
    /// Outer position, vertical.
    pub y: i32,
    /// Whether the window was maximized.
    pub maximized: bool,
}

/// The geometry used on first run, before anything was persisted:
/// 1400x900 at (100, 100), not maximized.
pub open spec fn default_window_state() -> WindowState {
    WindowState { width: 1400, height: 900, x: 100, y: 100, maximized: false }
}

impl WindowState {
    /// The hardcoded first-run geometry.
    pub fn first_run() -> (w: WindowState)
        ensures
            w == default_window_state(),
    {
        WindowState { width: 1400, height: 900, x: 100, y: 100, maximized: false }
    }
}

/// The settings document as it stands on disk: one typed slot per
/// well-known key, `None` where the key is absent. An unopenable or
/// missing store is the document with every key absent.
pub struct StoreDoc {
    /// Value under the `window_state` key.
    pub window_state: Option<WindowState>,
    /// Value under the `last_version` key.
    pub last_version: Option<String>,
    /// Value under the `update_check_enabled` key.
    pub update_check_enabled: Option<bool>,
    /// Value under the `notifications_enabled` key.
    pub notifications_enabled: Option<bool>,
}

/// Aggregate configuration reconstructed from the store on every access.
pub struct AppSettings {
    /// Last-known window geometry.
    pub window_state: WindowState,
    /// The version that ran immediately before the last successful
    /// update install; the rollback reference point.
    pub last_version: Option<String>,
    /// Whether the scheduled update check runs.
    pub update_check_enabled: bool,
    /// Whether native notifications are shown.
    pub notifications_enabled: bool,
}

/// Mathematical image of [`AppSettings`], with strings as character
/// sequences.
pub struct SettingsModel {
    pub window_state: WindowState,
    pub last_version: Option<Seq<char>>,
    pub update_check_enabled: bool,
    pub notifications_enabled: bool,
}

/// Mathematical image of [`StoreDoc`].
pub struct DocModel {
    pub window_state: Option<WindowState>,
    pub last_version: Option<Seq<char>>,
    pub update_check_enabled: Option<bool>,
    pub notifications_enabled: Option<bool>,
}

/// The view of an optional version string.
pub open spec fn opt_string_view(v: Option<String>) -> Option<Seq<char>> {
    match v {
        Some(s) => Some(s@),
        None => None,
    }
}

impl View for AppSettings {
    type V = SettingsModel;

    open spec fn view(&self) -> SettingsModel {
        SettingsModel {
            window_state: self.window_state,
            last_version: opt_string_view(self.last_version),
            update_check_enabled: self.update_check_enabled,
            notifications_enabled: self.notifications_enabled,
        }
    }
}

impl View for StoreDoc {
    type V = DocModel;

    open spec fn view(&self) -> DocModel {
        DocModel {
            window_state: self.window_state,
            last_version: opt_string_view(self.last_version),
            update_check_enabled: self.update_check_enabled,
            notifications_enabled: self.notifications_enabled,
        }
    }
}

/// The documented defaults: first-run geometry, no recorded prior
/// version, update checks and notifications enabled.
pub open spec fn default_settings_model() -> SettingsModel {
    SettingsModel {
        window_state: default_window_state(),
        last_version: None,
        update_check_enabled: true,
        notifications_enabled: true,
    }
}

/// What loading resolves a document to: each present key verbatim, each
/// absent key its documented default.
pub open spec fn load_from(d: DocModel) -> SettingsModel {
    SettingsModel {
        window_state: match d.window_state {
            Some(w) => w,
            None => default_window_state(),
        },
        last_version: d.last_version,
        update_check_enabled: match d.update_check_enabled {
            Some(b) => b,
            None => true,
        },
        notifications_enabled: match d.notifications_enabled {
            Some(b) => b,
            None => true,
        },
    }
}

/// What saving writes into a document: geometry and both flags are
/// always written; the rollback reference is written only when set, and
/// an already-recorded one is never cleared.
pub open spec fn store_into(s: SettingsModel, d: DocModel) -> DocModel {
    DocModel {
        window_state: Some(s.window_state),
        last_version: match s.last_version {
            Some(v) => Some(v),
            None => d.last_version,
        },
        update_check_enabled: Some(s.update_check_enabled),
        notifications_enabled: Some(s.notifications_enabled),
    }
}

impl StoreDoc {
    /// The document of a store that is missing or cannot be opened:
    /// every key absent.
    pub fn empty() -> (d: StoreDoc)
        ensures
            d@.window_state is None,
            d@.last_version is None,
            d@.update_check_enabled is None,
            d@.notifications_enabled is None,
    {
        StoreDoc {
            window_state: None,
            last_version: None,
            update_check_enabled: None,
            notifications_enabled: None,
        }
    }
}

impl Default for AppSettings {
    /// The documented defaults, used wherever the store has nothing
    /// better to offer.
    fn default() -> (s: AppSettings)
        ensures
            s@ == default_settings_model(),
    {
        AppSettings {
            window_state: WindowState::first_run(),
            last_version: None,
            update_check_enabled: true,
            notifications_enabled: true,
        }
    }
}

/// Reconstruct the settings from the store document; a key that is
/// absent resolves to its documented default, never to an error.
pub fn load_settings(doc: &StoreDoc) -> (s: AppSettings)
    ensures
        s@ == load_from(doc@),
{
    let window_state = match doc.window_state {
        Some(w) => w,
        None => WindowState::first_run(),
    };
    let last_version = match &doc.last_version {
        Some(v) => Some(v.clone()),
        None => None,
    };
    let update_check_enabled = match doc.update_check_enabled {
        Some(b) => b,
        None => true,
    };
    let notifications_enabled = match doc.notifications_enabled {
        Some(b) => b,
        None => true,
    };
    AppSettings { window_state, last_version, update_check_enabled, notifications_enabled }
}

/// Write the settings back into the store document wholesale. A
/// recorded rollback reference is written as it stands; when none is
/// set, the key already in the document is left untouched, so the
/// reference is never cleared by an ordinary save.
pub fn save_settings(settings: &AppSettings, doc: &mut StoreDoc)
    ensures
        final(doc)@ == store_into(settings@, old(doc)@),
{
    doc.window_state = Some(settings.window_state);
    if let Some(v) = &settings.last_version {
        doc.last_version = Some(v.clone());
    }
    doc.update_check_enabled = Some(settings.update_check_enabled);
    doc.notifications_enabled = Some(settings.notifications_enabled);
}

/// A document with no keys at all loads to exactly the documented
/// defaults: 1400x900 at (100, 100), not maximized, no prior version,
/// update checks and notifications enabled.
pub proof fn lemma_empty_store_loads_defaults(d: DocModel)
    requires
        d.window_state is None,
        d.last_version is None,
        d.update_check_enabled is None,
        d.notifications_enabled is None,
    ensures
        load_from(d) == default_settings_model(),
{
}

/// Saving settings and loading them back reproduces the written window
/// geometry and both flags exactly, whatever the document held before;
/// the rollback reference survives the round trip whenever it was set,
/// and otherwise keeps the document's prior value.
pub proof fn lemma_settings_round_trip(s: SettingsModel, d: DocModel)
    ensures
        load_from(store_into(s, d)).window_state == s.window_state,
        load_from(store_into(s, d)).update_check_enabled == s.update_check_enabled,
        load_from(store_into(s, d)).notifications_enabled == s.notifications_enabled,
        s.last_version is Some ==> load_from(store_into(s, d)).last_version == s.last_version,
        s.last_version is None ==> load_from(store_into(s, d)).last_version == d.last_version,
{
}

} // verus!
