use crate::events::AppEvent;
use vstd::prelude::*;

verus! {

/// The ids of the tray menu's items.
pub struct TrayMenuIds {
    pub show_hide_id: String,
    pub start_pause_id: String,
    pub reset_id: String,
    pub always_on_top_id: String,
    pub quit_id: String,
}

impl TrayMenuIds {
    /// The event a click on the menu item `id` stands for, the first id that
    /// matches deciding; none for an item that is not one of ours.
    pub open spec fn event_of(self, id: Seq<char>) -> Option<AppEvent> {
        if id == self.show_hide_id@ {
            Some(AppEvent::ToggleVisibility)
        } else if id == self.start_pause_id@ {
            Some(AppEvent::ToggleStartPause)
        } else if id == self.reset_id@ {
            Some(AppEvent::Reset)
        } else if id == self.always_on_top_id@ {
            Some(AppEvent::ToggleAlwaysOnTop)
        } else if id == self.quit_id@ {
            Some(AppEvent::Quit)
        } else {
            None
        }
    }

    /// The event to forward for a click on the menu item `id`.
    pub fn event_for(&self, id: &String) -> (event: Option<AppEvent>)
        ensures
            event == self.event_of(id@),
    {
        if id.eq(&self.show_hide_id) {
            Some(AppEvent::ToggleVisibility)
        } else if id.eq(&self.start_pause_id) {
            Some(AppEvent::ToggleStartPause)
        } else if id.eq(&self.reset_id) {
            Some(AppEvent::Reset)
        } else if id.eq(&self.always_on_top_id) {
            Some(AppEvent::ToggleAlwaysOnTop)
        } else if id.eq(&self.quit_id) {
            Some(AppEvent::Quit)
        } else {
            None
        }
    }
}

} // verus!
