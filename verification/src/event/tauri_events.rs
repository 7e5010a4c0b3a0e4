//! The names of the events that the host itself emits. The host decides
//! them; the library takes them over once and hands them out.
use vstd::prelude::*;

verus! {

/// The host's own event names, as the host gave them.
#[derive(Debug, Clone)]
pub struct TauriEvent {
    pub check_update: String,
    pub download_progress: String,
    pub install_update: String,
    pub menu: String,
    pub status_update: String,
    pub update_available: String,
    pub window_blur: String,
    pub window_close_requested: String,
    pub window_created: String,
    pub window_destroyed: String,
    pub window_file_drop: String,
    pub window_file_drop_cancelled: String,
    pub window_file_drop_hover: String,
    pub window_focus: String,
    pub window_moved: String,
    pub window_resized: String,
    pub window_scale_factor_changed: String,
    pub window_theme_changed: String,
}

pub fn check_update(events: &TauriEvent) -> (name: String)
    ensures
        name == events.check_update,
{
    events.check_update.clone()
}

pub fn download_progress(events: &TauriEvent) -> (name: String)
    ensures
        name == events.download_progress,
{
    events.download_progress.clone()
}

pub fn install_update(events: &TauriEvent) -> (name: String)
    ensures
        name == events.install_update,
{
    events.install_update.clone()
}

pub fn menu(events: &TauriEvent) -> (name: String)
    ensures
        name == events.menu,
{
    events.menu.clone()
}

pub fn status_update(events: &TauriEvent) -> (name: String)
    ensures
        name == events.status_update,
{
    events.status_update.clone()
}

pub fn update_available(events: &TauriEvent) -> (name: String)
    ensures
        name == events.update_available,
{
    events.update_available.clone()
}

pub fn window_blur(events: &TauriEvent) -> (name: String)
    ensures
        name == events.window_blur,
{
    events.window_blur.clone()
}

pub fn window_close_requested(events: &TauriEvent) -> (name: String)
    ensures
        name == events.window_close_requested,
{
    events.window_close_requested.clone()
}

pub fn window_created(events: &TauriEvent) -> (name: String)
    ensures
        name == events.window_created,
{
    events.window_created.clone()
}

pub fn window_destroyed(events: &TauriEvent) -> (name: String)
    ensures
        name == events.window_destroyed,
{
    events.window_destroyed.clone()
}

pub fn window_file_drop(events: &TauriEvent) -> (name: String)
    ensures
        name == events.window_file_drop,
{
    events.window_file_drop.clone()
}

pub fn window_file_drop_cancelled(events: &TauriEvent) -> (name: String)
    ensures
        name == events.window_file_drop_cancelled,
{
    events.window_file_drop_cancelled.clone()
}

pub fn window_file_drop_hover(events: &TauriEvent) -> (name: String)
    ensures
        name == events.window_file_drop_hover,
{
    events.window_file_drop_hover.clone()
}

pub fn window_focus(events: &TauriEvent) -> (name: String)
    ensures
        name == events.window_focus,
{
    events.window_focus.clone()
}

pub fn window_moved(events: &TauriEvent) -> (name: String)
    ensures
        name == events.window_moved,
{
    events.window_moved.clone()
}

pub fn window_resized(events: &TauriEvent) -> (name: String)
    ensures
        name == events.window_resized,
{
    events.window_resized.clone()
}

pub fn window_scale_factor_changed(events: &TauriEvent) -> (name: String)
    ensures
        name == events.window_scale_factor_changed,
{
    events.window_scale_factor_changed.clone()
}

pub fn window_theme_changed(events: &TauriEvent) -> (name: String)
    ensures
        name == events.window_theme_changed,
{
    events.window_theme_changed.clone()
}

} // verus!
