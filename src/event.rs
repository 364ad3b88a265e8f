use std::collections::VecDeque;
use vstd::prelude::*;

use crate::tabs::DBTypes;

verus! {

/// A notification raised by a tab or a popup and applied by the controller.
#[derive(Debug)]
pub enum AppEvent {
    /// A database kind was picked in the type selector.
    DBTypeSelected { db_type: DBTypes },
    /// The user asked for the new-connection form.
    NewConnection,
    /// The connection form was filled in and submitted.
    ConnectionDetailsSubmitted { connection_string: String },
    /// The topmost popup asks to be closed.
    CancelClosePopup,
    /// The user confirmed that the application should quit.
    ConfirmQuitApp,
}

/// The ordered, non-blocking channel from tabs and popups to the controller.
/// Events come out in the order they went in.
pub struct EventBus {
    queue: VecDeque<AppEvent>,
}

impl View for EventBus {
    type V = Seq<AppEvent>;

    closed spec fn view(&self) -> Seq<AppEvent> {
        self.queue@
    }
}

impl EventBus {
    /// An empty bus.
    pub fn new() -> (r: EventBus)
        ensures
            r@ == Seq::<AppEvent>::empty(),
    {
        EventBus { queue: VecDeque::new() }
    }

    /// Appends an event behind those already queued.
    pub fn send(&mut self, event: AppEvent)
        ensures
            final(self)@ == old(self)@.push(event),
    {
        self.queue.push_back(event);
    }

    /// Takes the oldest queued event, or `None` when nothing is queued; never waits.
    pub fn try_recv(&mut self) -> (r: Option<AppEvent>)
        ensures
            old(self)@.len() == 0 ==> r is None && final(self)@ == old(self)@,
            old(self)@.len() > 0 ==> r == Some(old(self)@[0]) && final(self)@ == old(self)@.drop_first(),
    {
        self.queue.pop_front()
    }

    pub fn len(&self) -> (r: usize)
        ensures
            r == self@.len(),
    {
        self.queue.len()
    }

    pub fn is_empty(&self) -> (r: bool)
        ensures
            r == (self@.len() == 0),
    {
        self.queue.len() == 0
    }
}

} // verus!
