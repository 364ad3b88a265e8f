use vstd::prelude::*;

use crate::connection_popup::DbConnectionPopup;
use crate::event::{AppEvent, EventBus};
use crate::keys::KeyEvent;
use crate::quit_popup::{quit_popup_response, QuitConfirmPopup};

verus! {

/// A modal dialog drawn over the main view; the topmost one takes all input.
#[derive(Debug)]
pub enum Popup {
    Connection(DbConnectionPopup),
    Quit(QuitConfirmPopup),
}

/// Which kind of dialog a popup is.
#[derive(Clone, Copy, Debug, PartialEq, Eq, Structural)]
pub enum PopupTag {
    Connection,
    Quit,
}

/// What one key does to a popup and to the event bus.
pub open spec fn popup_step(a: Popup, key: KeyEvent, bus: Seq<AppEvent>, b: Popup, next_bus: Seq<AppEvent>) -> bool {
    match (a, b) {
        (Popup::Connection(x), Popup::Connection(y)) => x.spec_handles(key, bus, y, next_bus),
        (Popup::Quit(x), Popup::Quit(y)) => x == y && next_bus == match quit_popup_response(key) {
            Some(e) => bus.push(e),
            None => bus,
        },
        _ => false,
    }
}

impl Popup {
    pub open spec fn spec_tag(&self) -> PopupTag {
        match self {
            Popup::Connection(_) => PopupTag::Connection,
            Popup::Quit(_) => PopupTag::Quit,
        }
    }

    pub fn tag(&self) -> (r: PopupTag)
        ensures
            r == self.spec_tag(),
    {
        match self {
            Popup::Connection(_) => PopupTag::Connection,
            Popup::Quit(_) => PopupTag::Quit,
        }
    }

    /// Hands one key to the dialog.
    pub fn handle_input(&mut self, key: &KeyEvent, app_event_bus: &mut EventBus)
        ensures
            popup_step(*old(self), *key, old(app_event_bus)@, *final(self), final(app_event_bus)@),
    {
        match self {
            Popup::Connection(p) => p.handle_input(key, app_event_bus),
            Popup::Quit(p) => p.handle_input(key, app_event_bus),
        }
    }
}

} // verus!
