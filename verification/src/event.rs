//! Events of the host.
pub mod tauri_events;

use vstd::prelude::*;

verus! {

/// One event as the host delivers it.
#[derive(Debug, Clone)]
pub struct Event<T> {
    /// The name of the event.
    pub event: String,
    /// The number of the listener that the event was delivered to.
    pub id: usize,
    pub payload: T,
    /// The window that emitted the event, where one did.
    pub window_label: Option<String>,
}

} // verus!
