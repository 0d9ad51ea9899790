//! Window state tracking: capturing geometry from the live window when
//! it closes, and restoring it at construction time.
//!
//! The shell reads size, outer position and the maximized flag from the
//! window handle; each of the three reads is independently best-effort,
//! so every read arrives here as an `Option` and a failed one leaves
//! that field at its previously persisted value.

use vstd::prelude::*;
use crate::settings::AppSettings;
use crate::settings::StoreDoc;
use crate::settings::SettingsModel;
use crate::settings::WindowState;
use crate::settings::load_from;
use crate::settings::load_settings;
use crate::settings::save_settings;
use crate::settings::store_into;

verus! {

/// What a capture yields: each successfully read field, and the
/// previous value where the read failed.
pub open spec fn captured(
    prev: WindowState,
    size: Option<(u32, u32)>,
    position: Option<(i32, i32)>,
    maximized: Option<bool>,
) -> WindowState {
    WindowState {
        width: match size {
            Some(s) => s.0,
            None => prev.width,
        },
        height: match size {
            Some(s) => s.1,
            None => prev.height,
        },
        x: match position {
            Some(p) => p.0,
            None => prev.x,
        },
        y: match position {
            Some(p) => p.1,
            None => prev.y,
        },
        maximized: match maximized {
            Some(m) => m,
            None => prev.maximized,
        },
    }
}

/// Fold the three best-effort reads from the live window into a new
/// geometry record; a read that failed leaves its field at the
/// previously persisted value rather than aborting the capture.
pub fn capture(
    prev: WindowState,
    size: Option<(u32, u32)>,
    position: Option<(i32, i32)>,
    maximized: Option<bool>,
) -> (w: WindowState)
    ensures
        w == captured(prev, size, position, maximized),
{
    let mut next = prev;
    if let Some(s) = size {
        next.width = s.0;
        next.height = s.1;
    }
    if let Some(p) = position {
        next.x = p.0;
        next.y = p.1;
    }
    if let Some(m) = maximized {
        next.maximized = m;
    }
    next
}

/// The geometry to apply at window-construction time: the stored state
/// verbatim. Clamping to a minimum size is the windowing layer's job,
/// not this component's.
pub fn restore(settings: &AppSettings) -> (w: WindowState)
    ensures
        w == settings.window_state,
{
    settings.window_state
}

/// The saved geometry as the store document resolves it, with the
/// documented default where nothing was persisted.
pub fn get_window_state(doc: &StoreDoc) -> (w: WindowState)
    ensures
        w == load_from(doc@).window_state,
{
    let settings = load_settings(doc);
    settings.window_state
}

/// The one window-close write: load the full settings, overwrite only
/// the window geometry with the fresh capture, and write the full
/// settings back.
pub fn save_window_state(
    doc: &mut StoreDoc,
    size: Option<(u32, u32)>,
    position: Option<(i32, i32)>,
    maximized: Option<bool>,
)
    ensures
        final(doc)@ == store_into(
            (SettingsModel {
                window_state: captured(
                    load_from(old(doc)@).window_state,
                    size,
                    position,
                    maximized,
                ),
                ..load_from(old(doc)@)
            }),
            old(doc)@,
        ),
{
    let mut settings = load_settings(doc);
    settings.window_state = capture(settings.window_state, size, position, maximized);
    save_settings(&settings, doc);
}

} // verus!
