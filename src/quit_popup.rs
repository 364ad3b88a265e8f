use vstd::prelude::*;

use crate::event::{AppEvent, EventBus};
use crate::keys::{KeyCode, KeyEvent};

verus! {

/// The dialog that asks whether to quit; it holds no state of its own.
#[derive(Clone, Copy, Debug, PartialEq, Eq, Structural)]
pub struct QuitConfirmPopup {}

/// The question the dialog asks.
pub const QUIT_PROMPT: &'static str = "Are you sure you want to quit?";

/// The hint under the question.
pub const QUIT_FOOTER: &'static str = "Q or Enter: quit | Esc or C: Cancel";

/// What a key means to the quit dialog: Esc or `c` close it, Enter or `q`
/// confirm quitting, any other key means nothing.
pub open spec fn quit_popup_response(key: KeyEvent) -> Option<AppEvent> {
    if key.code == KeyCode::Esc || key.code == KeyCode::Char('c') {
        Some(AppEvent::CancelClosePopup)
    } else if key.code == KeyCode::Enter || key.code == KeyCode::Char('q') {
        Some(AppEvent::ConfirmQuitApp)
    } else {
        None
    }
}

impl QuitConfirmPopup {
    pub fn new() -> (r: QuitConfirmPopup)
        ensures
            r == (QuitConfirmPopup {}),
    {
        QuitConfirmPopup {}
    }

    /// Queues the event that the key means to the dialog, if any.
    pub fn handle_input(&mut self, key: &KeyEvent, app_event_bus: &mut EventBus)
        ensures
            *final(self) == *old(self),
            final(app_event_bus)@ == match quit_popup_response(*key) {
                Some(e) => old(app_event_bus)@.push(e),
                None => old(app_event_bus)@,
            },
    {
        let code = key.code;
        if code == KeyCode::Esc || code == KeyCode::Char('c') {
            self.cancel_close(app_event_bus);
        } else if code == KeyCode::Enter || code == KeyCode::Char('q') {
            self.confirm_quit(app_event_bus);
        }
    }

    fn cancel_close(&mut self, app_event_bus: &mut EventBus)
        ensures
            *final(self) == *old(self),
            final(app_event_bus)@ == old(app_event_bus)@.push(AppEvent::CancelClosePopup),
    {
        app_event_bus.send(AppEvent::CancelClosePopup);
    }

    fn confirm_quit(&mut self, app_event_bus: &mut EventBus)
        ensures
            *final(self) == *old(self),
            final(app_event_bus)@ == old(app_event_bus)@.push(AppEvent::ConfirmQuitApp),
    {
        app_event_bus.send(AppEvent::ConfirmQuitApp);
    }
}

} // verus!
