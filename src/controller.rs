use tui_logger::{TuiWidgetEvent, TuiWidgetState};
use vstd::prelude::*;

use crate::connection_popup::DbConnectionPopup;
use crate::event::{AppEvent, EventBus};
use crate::focus::{enabled_count, switch_next, switch_prev, walk_next, walk_prev};
use crate::keys::{KeyCode, KeyEvent, KeyEventKind};
use crate::popup::{popup_step, Popup};
use crate::style::Theme;
use crate::tabs::{
    tab_step,
    DBTab,
    DBTypes,
    DbConnectionsTab,
    DbDatabasesTab,
    DbTablesTab,
    DbTypesTab,
    Tab,
};

verus! {

#[verifier::external_type_specification]
#[verifier::external_body]
pub struct ExTuiWidgetState(TuiWidgetState);

/// Which way to page through the log view.
#[derive(Clone, Copy, Debug, PartialEq, Eq, Structural)]
pub enum LogPage {
    Next,
    Prev,
}

/// Relies on `TuiWidgetState::new` and `TuiWidgetState::set_default_display_level`
/// of tui-logger: a fresh log view that shows records from Debug level up.
#[verifier::external_body]
fn new_log_view() -> TuiWidgetState {
    TuiWidgetState::new().set_default_display_level(log::LevelFilter::Debug)
}

/// Relies on `TuiWidgetState::transition` of tui-logger: it moves the log
/// view by one page.
#[verifier::external_body]
fn page_log_view(state: &mut TuiWidgetState, page: LogPage) {
    match page {
        LogPage::Next => state.transition(TuiWidgetEvent::NextPageKey),
        LogPage::Prev => state.transition(TuiWidgetEvent::PrevPageKey),
    }
}

/// Whether the frame loop goes on.
#[derive(Clone, Copy, Debug, PartialEq, Eq, Structural)]
pub enum QuitState {
    Running,
    Close,
}

/// The part of the controller's state that queued events act on.
pub struct ControllerState {
    pub quit: QuitState,
    pub index: int,
    pub disabled: Seq<bool>,
    pub db_type: Option<DBTypes>,
    pub popups: Seq<Popup>,
}

/// Whether folding event `e` into state `s` may give state `t`: a selection
/// is recorded and moves focus to the next tab; a form request, once a
/// database kind is selected, pushes a fresh connection form for that kind
/// over the popups already open, and is dropped otherwise; a submitted form
/// changes nothing yet; a cancel closes the topmost popup, if any; a
/// confirmed quit ends the loop. Only the new form's buffers are left open:
/// everything else is determined.
pub open spec fn fold_step(s: ControllerState, e: AppEvent, t: ControllerState) -> bool {
    match e {
        AppEvent::DBTypeSelected { db_type } => t == ControllerState {
            db_type: Some(db_type),
            index: switch_next(s.disabled, s.index),
            ..s
        },
        AppEvent::NewConnection => match s.db_type {
            Some(ty) => {
                &&& t == ControllerState { popups: t.popups, ..s }
                &&& t.popups.len() == s.popups.len() + 1
                &&& t.popups.drop_last() == s.popups
                &&& t.popups.last() matches Popup::Connection(form) && form.is_fresh(ty.spec_name())
            },
            None => t == s,
        },
        AppEvent::ConnectionDetailsSubmitted { .. } => t == s,
        AppEvent::CancelClosePopup => t == if s.popups.len() > 0 {
            ControllerState { popups: s.popups.drop_last(), ..s }
        } else {
            s
        },
        AppEvent::ConfirmQuitApp => t == ControllerState { quit: QuitState::Close, ..s },
    }
}

/// Whether folding `events` into `s`, first to last, may give `t`.
pub open spec fn fold_events(s: ControllerState, events: Seq<AppEvent>, t: ControllerState) -> bool
    decreases events.len(),
{
    if events.len() == 0 {
        t == s
    } else {
        exists|m: ControllerState| #[trigger] fold_step(s, events[0], m) && fold_events(m, events.drop_first(), t)
    }
}

/// Three events queued as `e1, e2, e3` take effect one after the other, in
/// that order.
pub proof fn lemma_events_apply_in_order(
    s: ControllerState,
    e1: AppEvent,
    e2: AppEvent,
    e3: AppEvent,
    t: ControllerState,
)
    ensures
        fold_events(s, seq![e1, e2, e3], t) <==> exists|m1: ControllerState, m2: ControllerState|
            #[trigger] fold_step(s, e1, m1) && #[trigger] fold_step(m1, e2, m2) && fold_step(m2, e3, t),
{
    let q = seq![e1, e2, e3];
    assert(q.drop_first() =~= seq![e2, e3]);
    assert(q.drop_first().drop_first() =~= seq![e3]);
    assert(q.drop_first().drop_first().drop_first() =~= Seq::<AppEvent>::empty());
    let q2 = seq![e2, e3];
    let q3 = seq![e3];
    assert(q2[0] == e2 && q2.drop_first() == q3);
    assert(q3[0] == e3 && q3.drop_first() == Seq::<AppEvent>::empty());
    if fold_events(s, q, t) {
        let m1 = choose|m: ControllerState| #[trigger] fold_step(s, q[0], m) && fold_events(m, q.drop_first(), t);
        let m2 = choose|m: ControllerState| #[trigger] fold_step(m1, q2[0], m) && fold_events(m, q2.drop_first(), t);
        let m3 = choose|m: ControllerState| #[trigger] fold_step(m2, q3[0], m) && fold_events(m, q3.drop_first(), t);
        assert(m3 == t);
        assert(fold_step(s, e1, m1) && fold_step(m1, e2, m2) && fold_step(m2, e3, t));
    }
    if exists|m1: ControllerState, m2: ControllerState|
        #[trigger] fold_step(s, e1, m1) && #[trigger] fold_step(m1, e2, m2) && fold_step(m2, e3, t) {
        let (m1, m2) = choose|m1: ControllerState, m2: ControllerState|
            #[trigger] fold_step(s, e1, m1) && #[trigger] fold_step(m1, e2, m2) && fold_step(m2, e3, t);
        assert(fold_events(t, Seq::<AppEvent>::empty(), t));
        assert(fold_events(m2, q3, t));
        assert(fold_events(m1, q2, t));
        assert(fold_events(s, q, t));
    }
}

/// The disabled flags of a row of tabs.
pub open spec fn disabled_flags(tabs: Seq<Tab>) -> Seq<bool> {
    Seq::new(tabs.len(), |k: int| tabs[k].spec_disabled())
}

/// The global "quit" keys: `q` and Esc.
pub open spec fn is_quit_key(code: KeyCode) -> bool {
    code == KeyCode::Char('q') || code == KeyCode::Esc
}

/// The application controller: it owns the tabs, the popup stack, the focus
/// and the event bus, routes each key, and applies queued events.
pub struct App {
    title: String,
    do_quit: QuitState,
    theme: Theme,
    tabs: Vec<Tab>,
    current_tab_index: usize,
    db_type: Option<DBTypes>,
    event_bus: EventBus,
    show_logs_window: bool,
    popup_stack: Vec<Popup>,
    tui_widget_state: TuiWidgetState,
    log_pages: Ghost<Seq<LogPage>>,
}

impl App {
    pub closed spec fn spec_title(&self) -> Seq<char> {
        self.title@
    }

    pub closed spec fn spec_quit(&self) -> QuitState {
        self.do_quit
    }

    pub closed spec fn spec_tabs(&self) -> Seq<Tab> {
        self.tabs@
    }

    pub closed spec fn spec_index(&self) -> int {
        self.current_tab_index as int
    }

    pub closed spec fn spec_db_type(&self) -> Option<DBTypes> {
        self.db_type
    }

    pub closed spec fn spec_bus(&self) -> Seq<AppEvent> {
        self.event_bus@
    }

    pub closed spec fn spec_show_logs(&self) -> bool {
        self.show_logs_window
    }

    pub closed spec fn spec_popups(&self) -> Seq<Popup> {
        self.popup_stack@
    }

    /// The page moves asked of the log view so far, oldest first.
    pub closed spec fn spec_log_pages(&self) -> Seq<LogPage> {
        self.log_pages@
    }

    pub closed spec fn spec_theme(&self) -> Theme {
        self.theme
    }

    /// There is at least one tab and the focus is on one of them.
    pub open spec fn wf(&self) -> bool {
        0 <= self.spec_index() < self.spec_tabs().len()
    }

    pub open spec fn spec_disabled(&self) -> Seq<bool> {
        disabled_flags(self.spec_tabs())
    }

    /// What queued events act on.
    pub open spec fn model(&self) -> ControllerState {
        ControllerState {
            quit: self.spec_quit(),
            index: self.spec_index(),
            disabled: self.spec_disabled(),
            db_type: self.spec_db_type(),
            popups: self.spec_popups(),
        }
    }

    /// `self` agrees with `other` on title, theme and selection, and on each
    /// other part whose flag is set: focus, quit state, tabs together with the
    /// event bus, the log overlay with its paging, the popup stack.
    pub open spec fn keeps(
        &self,
        other: &App,
        index: bool,
        quit: bool,
        tabs_and_bus: bool,
        logs: bool,
        popups: bool,
    ) -> bool {
        &&& self.wf()
        &&& self.spec_title() == other.spec_title()
        &&& self.spec_theme() == other.spec_theme()
        &&& self.spec_db_type() == other.spec_db_type()
        &&& index ==> self.spec_index() == other.spec_index()
        &&& quit ==> self.spec_quit() == other.spec_quit()
        &&& tabs_and_bus ==> self.spec_tabs() == other.spec_tabs() && self.spec_bus() == other.spec_bus()
        &&& logs ==> self.spec_show_logs() == other.spec_show_logs() && self.spec_log_pages() == other.spec_log_pages()
        &&& popups ==> self.spec_popups() == other.spec_popups()
    }

    /// A controller with the four tabs (types, connections, databases,
    /// tables; the last two disabled), focus on the first, no popup, no
    /// selection, and nothing queued.
    pub fn new() -> (r: App)
        ensures
            r.wf(),
            r.spec_title() == " Database Manager "@,
            r.spec_quit() == QuitState::Running,
            r.spec_index() == 0,
            r.spec_tabs().len() == 4,
            r.spec_tabs()[0] matches Tab::Types(t) && t.title@ == "Types"@ && t.selected == 0,
            r.spec_tabs()[1] matches Tab::Connections(t) && {
                &&& t.title@ == "Connections"@
                &&& t.selected == 0
                &&& t.connections@.len() == 1
                &&& t.connections@[0].name@ == "Create New Connection"@
                &&& t.connections@[0].is_create_new
                &&& t.connections@[0].host@.len() == 0
                &&& t.connections@[0].user@.len() == 0
                &&& t.connections@[0].password@.len() == 0
                &&& t.connections@[0].port == 0
            },
            r.spec_tabs()[2] matches Tab::Databases(t) && t.title@ == "Databases"@,
            r.spec_tabs()[3] matches Tab::Tables(t) && t.title@ == "Tables"@,
            r.spec_log_pages().len() == 0,
            r.spec_disabled() == seq![false, false, true, true],
            r.spec_db_type() is None,
            r.spec_bus().len() == 0,
            !r.spec_show_logs(),
            r.spec_popups().len() == 0,
            r.spec_theme().is_default(),
    {
        let mut tabs: Vec<Tab> = Vec::new();
        tabs.push(Tab::Types(DbTypesTab::default()));
        tabs.push(Tab::Connections(DbConnectionsTab::default()));
        tabs.push(Tab::Databases(DbDatabasesTab::default()));
        tabs.push(Tab::Tables(DbTablesTab::default()));
        let r = App {
            title: String::from_str(" Database Manager "),
            do_quit: QuitState::Running,
            theme: Theme::default(),
            tabs,
            current_tab_index: 0,
            db_type: None,
            event_bus: EventBus::new(),
            show_logs_window: false,
            popup_stack: Vec::new(),
            tui_widget_state: new_log_view(),
            log_pages: Ghost(Seq::empty()),
        };
        assert(r.spec_disabled() =~= seq![false, false, true, true]);
        r
    }

    pub fn title(&self) -> (r: &str)
        ensures
            r@ == self.spec_title(),
    {
        self.title.as_str()
    }

    pub fn quit_state(&self) -> (r: QuitState)
        ensures
            r == self.spec_quit(),
    {
        self.do_quit
    }

    pub fn current_tab_index(&self) -> (r: usize)
        ensures
            r == self.spec_index(),
    {
        self.current_tab_index
    }

    pub fn tabs(&self) -> (r: &Vec<Tab>)
        ensures
            r@ == self.spec_tabs(),
    {
        &self.tabs
    }

    pub fn db_type(&self) -> (r: Option<DBTypes>)
        ensures
            r == self.spec_db_type(),
    {
        self.db_type
    }

    pub fn show_logs_window(&self) -> (r: bool)
        ensures
            r == self.spec_show_logs(),
    {
        self.show_logs_window
    }

    pub fn popup_stack(&self) -> (r: &Vec<Popup>)
        ensures
            r@ == self.spec_popups(),
    {
        &self.popup_stack
    }

    pub fn theme(&self) -> (r: &Theme)
        ensures
            *r == self.spec_theme(),
    {
        &self.theme
    }

    /// The paging state of the log view, for drawing it.
    pub fn log_widget_state(&self) -> &TuiWidgetState {
        &self.tui_widget_state
    }

    /// Whether a popup is open.
    pub fn has_popup(&self) -> (r: bool)
        ensures
            r == (self.spec_popups().len() > 0),
    {
        self.popup_stack.len() > 0
    }

    /// How many events wait on the bus.
    pub fn pending_events(&self) -> (r: usize)
        ensures
            r == self.spec_bus().len(),
    {
        self.event_bus.len()
    }

    /// Queues an event behind those already waiting.
    pub fn send_event(&mut self, event: AppEvent)
        ensures
            final(self).spec_bus() == old(self).spec_bus().push(event),
            final(self).spec_title() == old(self).spec_title(),
            final(self).spec_quit() == old(self).spec_quit(),
            final(self).spec_tabs() == old(self).spec_tabs(),
            final(self).spec_index() == old(self).spec_index(),
            final(self).spec_db_type() == old(self).spec_db_type(),
            final(self).spec_show_logs() == old(self).spec_show_logs(),
            final(self).spec_log_pages() == old(self).spec_log_pages(),
            final(self).spec_popups() == old(self).spec_popups(),
            final(self).spec_theme() == old(self).spec_theme(),
    {
        self.event_bus.send(event);
    }

    /// Enables or disables one tab; the focus stays where it is.
    pub fn set_tab_disabled(&mut self, index: usize, disabled: bool)
        requires
            old(self).wf(),
            index < old(self).spec_tabs().len(),
        ensures
            final(self).keeps(old(self), true, true, false, true, true),
            final(self).spec_bus() == old(self).spec_bus(),
            final(self).spec_disabled() == old(self).spec_disabled().update(index as int, disabled),
            final(self).spec_tabs().len() == old(self).spec_tabs().len(),
            forall|k: int|
                0 <= k < final(self).spec_tabs().len() ==> #[trigger] final(self).spec_tabs()[k].spec_title()
                    == old(self).spec_tabs()[k].spec_title(),
    {
        self.tabs[index].set_disabled(disabled);
        assert(self.spec_disabled() =~= old(self).spec_disabled().update(index as int, disabled));
    }

    fn count_enabled(&self) -> (r: usize)
        ensures
            r == enabled_count(self.spec_disabled()),
    {
        let ghost flags = self.spec_disabled();
        let mut count: usize = 0;
        let mut k: usize = 0;
        while k < self.tabs.len()
            invariant
                flags == disabled_flags(self.tabs@),
                k <= self.tabs@.len(),
                count <= k,
                count == enabled_count(flags.subrange(0, k as int)),
            decreases self.tabs@.len() - k,
        {
            assert(flags.subrange(0, k + 1).drop_last() =~= flags.subrange(0, k as int));
            if !self.tabs[k].is_disabled() {
                count = count + 1;
            }
            k = k + 1;
        }
        assert(flags.subrange(0, k as int) =~= flags);
        count
    }

    /// Moves the focus to the next enabled tab, wrapping around; does nothing
    /// when fewer than two tabs are enabled.
    pub fn switch_next_tab(&mut self)
        requires
            old(self).wf(),
        ensures
            final(self).spec_index() == switch_next(old(self).spec_disabled(), old(self).spec_index()),
            final(self).wf(),
            final(self).spec_title() == old(self).spec_title(),
            final(self).spec_quit() == old(self).spec_quit(),
            final(self).spec_tabs() == old(self).spec_tabs(),
            final(self).spec_db_type() == old(self).spec_db_type(),
            final(self).spec_bus() == old(self).spec_bus(),
            final(self).spec_show_logs() == old(self).spec_show_logs(),
            final(self).spec_log_pages() == old(self).spec_log_pages(),
            final(self).spec_popups() == old(self).spec_popups(),
            final(self).spec_theme() == old(self).spec_theme(),
    {
        let enabled = self.count_enabled();
        if enabled < 2 {
            return;
        }
        let ghost flags = self.spec_disabled();
        let n = self.tabs.len();
        let mut i = self.current_tab_index;
        let ghost start = i as int;
        let mut fuel = n;
        while fuel > 0
            invariant_except_break
                walk_next(flags, start, n as nat) == walk_next(flags, i as int, fuel as nat),
            invariant
                flags == disabled_flags(self.tabs@),
                n == self.tabs@.len(),
                i < n,
                fuel <= n,
            ensures
                walk_next(flags, start, n as nat) == i,
            decreases fuel,
        {
            let j = if i + 1 < n {
                i + 1
            } else {
                0
            };
            if !self.tabs[j].is_disabled() {
                i = j;
                break;
            }
            i = j;
            fuel = fuel - 1;
        }
        self.current_tab_index = i;
    }

    /// Moves the focus to the previous enabled tab, wrapping around; does
    /// nothing when fewer than two tabs are enabled.
    pub fn switch_prev_tab(&mut self)
        requires
            old(self).wf(),
        ensures
            final(self).spec_index() == switch_prev(old(self).spec_disabled(), old(self).spec_index()),
            final(self).wf(),
            final(self).spec_title() == old(self).spec_title(),
            final(self).spec_quit() == old(self).spec_quit(),
            final(self).spec_tabs() == old(self).spec_tabs(),
            final(self).spec_db_type() == old(self).spec_db_type(),
            final(self).spec_bus() == old(self).spec_bus(),
            final(self).spec_show_logs() == old(self).spec_show_logs(),
            final(self).spec_log_pages() == old(self).spec_log_pages(),
            final(self).spec_popups() == old(self).spec_popups(),
            final(self).spec_theme() == old(self).spec_theme(),
    {
        let enabled = self.count_enabled();
        if enabled < 2 {
            return;
        }
        let ghost flags = self.spec_disabled();
        let n = self.tabs.len();
        let mut i = self.current_tab_index;
        let ghost start = i as int;
        let mut fuel = n;
        while fuel > 0
            invariant_except_break
                walk_prev(flags, start, n as nat) == walk_prev(flags, i as int, fuel as nat),
            invariant
                flags == disabled_flags(self.tabs@),
                n == self.tabs@.len(),
                i < n,
                fuel <= n,
            ensures
                walk_prev(flags, start, n as nat) == i,
            decreases fuel,
        {
            let j = if i == 0 {
                n - 1
            } else {
                i - 1
            };
            if !self.tabs[j].is_disabled() {
                i = j;
                break;
            }
            i = j;
            fuel = fuel - 1;
        }
        self.current_tab_index = i;
    }

    fn quit(&mut self)
        ensures
            final(self).spec_quit() == QuitState::Close,
            final(self).spec_title() == old(self).spec_title(),
            final(self).spec_tabs() == old(self).spec_tabs(),
            final(self).spec_index() == old(self).spec_index(),
            final(self).spec_db_type() == old(self).spec_db_type(),
            final(self).spec_bus() == old(self).spec_bus(),
            final(self).spec_show_logs() == old(self).spec_show_logs(),
            final(self).spec_log_pages() == old(self).spec_log_pages(),
            final(self).spec_popups() == old(self).spec_popups(),
            final(self).spec_theme() == old(self).spec_theme(),
    {
        self.do_quit = QuitState::Close;
    }
}

impl App {
    /// Applies one event to the controller, as `fold_step` states.
    fn fold_event(&mut self, event: AppEvent)
        requires
            old(self).wf(),
        ensures
            fold_step(old(self).model(), event, final(self).model()),
            final(self).wf(),
            final(self).spec_title() == old(self).spec_title(),
            final(self).spec_theme() == old(self).spec_theme(),
            final(self).spec_tabs() == old(self).spec_tabs(),
            final(self).spec_bus() == old(self).spec_bus(),
            final(self).spec_show_logs() == old(self).spec_show_logs(),
            final(self).spec_log_pages() == old(self).spec_log_pages(),
    {
        let ghost before = self.spec_popups();
        match event {
            AppEvent::DBTypeSelected { db_type } => {
                self.db_type = Some(db_type);
                self.switch_next_tab();
            },
            AppEvent::NewConnection => {
                if let Some(t) = self.db_type {
                    let popup = DbConnectionPopup::new(t.as_str());
                    self.popup_stack.push(Popup::Connection(popup));
                    assert(self.spec_popups().drop_last() =~= before);
                }
            },
            AppEvent::ConnectionDetailsSubmitted { .. } => {},
            AppEvent::CancelClosePopup => {
                if self.popup_stack.len() > 0 {
                    self.popup_stack.pop();
                    assert(self.spec_popups() =~= before.drop_last());
                }
            },
            AppEvent::ConfirmQuitApp => self.quit(),
        }
    }

    /// Drains the event bus without waiting and applies every queued event
    /// in the order it was queued.
    pub fn check_event_loop(&mut self)
        requires
            old(self).wf(),
        ensures
            fold_events(old(self).model(), old(self).spec_bus(), final(self).model()),
            final(self).spec_bus().len() == 0,
            final(self).wf(),
            final(self).spec_title() == old(self).spec_title(),
            final(self).spec_theme() == old(self).spec_theme(),
            final(self).spec_tabs() == old(self).spec_tabs(),
            final(self).spec_show_logs() == old(self).spec_show_logs(),
            final(self).spec_log_pages() == old(self).spec_log_pages(),
    {
        let ghost m0 = self.model();
        let ghost b0 = self.spec_bus();
        let ghost start = *self;
        loop
            invariant
                self.wf(),
                forall|t: ControllerState| #[trigger]
                    fold_events(self.model(), self.spec_bus(), t) ==> fold_events(m0, b0, t),
                self.spec_title() == start.spec_title(),
                self.spec_theme() == start.spec_theme(),
                self.spec_tabs() == start.spec_tabs(),
                self.spec_show_logs() == start.spec_show_logs(),
                self.spec_log_pages() == start.spec_log_pages(),
            ensures
                self.spec_bus().len() == 0,
            decreases self.spec_bus().len(),
        {
            let ghost cur = self.model();
            let ghost bus = self.spec_bus();
            match self.event_bus.try_recv() {
                Some(event) => {
                    self.fold_event(event);
                    let ghost next = self.model();
                    assert forall|t: ControllerState| #[trigger]
                        fold_events(next, self.spec_bus(), t) implies fold_events(m0, b0, t) by {
                        assert(fold_step(cur, bus[0], next) && fold_events(next, bus.drop_first(), t));
                        assert(fold_events(cur, bus, t));
                    }
                },
                None => break,
            }
        }
        assert(fold_events(self.model(), self.spec_bus(), self.model()));
    }

    /// Keys while the log overlay is shown: `j` and `k` page the log, `q`
    /// or Esc close the overlay, F12 toggles it.
    fn handle_key_events_log_window(&mut self, key: KeyEvent)
        requires
            old(self).wf(),
        ensures
            final(self).keeps(old(self), true, true, true, false, true),
            final(self).spec_log_pages() == if key.code == KeyCode::Char('j') {
                old(self).spec_log_pages().push(LogPage::Next)
            } else if key.code == KeyCode::Char('k') {
                old(self).spec_log_pages().push(LogPage::Prev)
            } else {
                old(self).spec_log_pages()
            },
            final(self).spec_show_logs() == if is_quit_key(key.code) {
                false
            } else if key.code == KeyCode::F(12) {
                !old(self).spec_show_logs()
            } else {
                old(self).spec_show_logs()
            },
    {
        let code = key.code;
        if code == KeyCode::Char('j') {
            page_log_view(&mut self.tui_widget_state, LogPage::Next);
            self.log_pages = Ghost(self.log_pages@.push(LogPage::Next));
        } else if code == KeyCode::Char('k') {
            page_log_view(&mut self.tui_widget_state, LogPage::Prev);
            self.log_pages = Ghost(self.log_pages@.push(LogPage::Prev));
        } else if code == KeyCode::Char('q') || code == KeyCode::Esc {
            self.show_logs_window = false;
        } else if code == KeyCode::F(12) {
            self.show_logs_window = !self.show_logs_window;
        }
    }

    /// Keys with no popup and no overlay: `q` or Esc quit; Tab with no
    /// modifier focuses the next tab and Shift+Tab the previous one; F12
    /// shows the log overlay; any other key goes to the focused tab.
    fn handle_key_event_main_app(&mut self, key: KeyEvent)
        requires
            old(self).wf(),
        ensures
            is_quit_key(key.code) ==> final(self).keeps(old(self), true, false, true, true, true)
                && final(self).spec_quit() == QuitState::Close,
            key.code == KeyCode::Tab ==> final(self).keeps(old(self), false, true, true, true, true)
                && final(self).spec_index() == if key.modifiers.spec_is_empty() {
                switch_next(old(self).spec_disabled(), old(self).spec_index())
            } else if key.modifiers.shift {
                switch_prev(old(self).spec_disabled(), old(self).spec_index())
            } else {
                old(self).spec_index()
            },
            key.code == KeyCode::BackTab ==> final(self).keeps(old(self), false, true, true, true, true)
                && final(self).spec_index() == switch_prev(old(self).spec_disabled(), old(self).spec_index()),
            key.code == KeyCode::F(12) ==> final(self).keeps(old(self), true, true, true, false, true)
                && final(self).spec_show_logs() == !old(self).spec_show_logs(),
            !is_quit_key(key.code) && key.code != KeyCode::Tab && key.code != KeyCode::BackTab
                && key.code != KeyCode::F(12) ==> {
                let i = old(self).spec_index();
                &&& final(self).keeps(old(self), true, true, false, true, true)
                &&& final(self).spec_tabs().len() == old(self).spec_tabs().len()
                &&& final(self).spec_tabs() == old(self).spec_tabs().update(i, final(self).spec_tabs()[i])
                &&& tab_step(
                    old(self).spec_tabs()[i],
                    key,
                    old(self).spec_bus(),
                    final(self).spec_tabs()[i],
                    final(self).spec_bus(),
                )
            },
    {
        let code = key.code;
        if code == KeyCode::Char('q') || code == KeyCode::Esc {
            self.quit();
        } else if code == KeyCode::Tab {
            if key.modifiers.is_empty() {
                self.switch_next_tab();
            } else if key.modifiers.shift {
                self.switch_prev_tab();
            }
        } else if code == KeyCode::BackTab {
            self.switch_prev_tab();
        } else if code == KeyCode::F(12) {
            self.show_logs_window = !self.show_logs_window;
        } else {
            let i = self.current_tab_index;
            self.tabs[i].handle_input(key, &mut self.event_bus);
        }
    }

    /// Hands a key to the topmost popup alone.
    fn handle_popup_input(&mut self, key: &KeyEvent)
        requires
            old(self).wf(),
            old(self).spec_popups().len() > 0,
        ensures
            final(self).keeps(old(self), true, true, false, true, false),
            final(self).spec_tabs() == old(self).spec_tabs(),
            final(self).spec_popups().len() == old(self).spec_popups().len(),
            final(self).spec_popups().drop_last() == old(self).spec_popups().drop_last(),
            popup_step(
                old(self).spec_popups().last(),
                *key,
                old(self).spec_bus(),
                final(self).spec_popups().last(),
                final(self).spec_bus(),
            ),
    {
        let last = self.popup_stack.len() - 1;
        self.popup_stack[last].handle_input(key, &mut self.event_bus);
        assert(self.spec_popups().drop_last() =~= old(self).spec_popups().drop_last());
    }

    /// Routes one key event. Only key presses count. While a popup is open the
    /// topmost popup receives the key and nothing else does: no tab, no
    /// global binding. Otherwise the log overlay, when shown, takes the key,
    /// and else the main bindings do.
    pub fn handle_events(&mut self, key: KeyEvent)
        requires
            old(self).wf(),
        ensures
            final(self).wf(),
            key.kind != KeyEventKind::Press ==> final(self).keeps(old(self), true, true, true, true, true),
            key.kind == KeyEventKind::Press && old(self).spec_popups().len() > 0 ==> {
                &&& final(self).keeps(old(self), true, true, false, true, false)
                &&& final(self).spec_tabs() == old(self).spec_tabs()
                &&& final(self).spec_popups().len() == old(self).spec_popups().len()
                &&& final(self).spec_popups().drop_last() == old(self).spec_popups().drop_last()
                &&& popup_step(
                    old(self).spec_popups().last(),
                    key,
                    old(self).spec_bus(),
                    final(self).spec_popups().last(),
                    final(self).spec_bus(),
                )
            },
            key.kind == KeyEventKind::Press && old(self).spec_popups().len() == 0
                && old(self).spec_show_logs() ==> {
                &&& final(self).keeps(old(self), true, true, true, false, true)
                &&& final(self).spec_show_logs() == !(is_quit_key(key.code) || key.code == KeyCode::F(12))
                &&& final(self).spec_log_pages() == if key.code == KeyCode::Char('j') {
                    old(self).spec_log_pages().push(LogPage::Next)
                } else if key.code == KeyCode::Char('k') {
                    old(self).spec_log_pages().push(LogPage::Prev)
                } else {
                    old(self).spec_log_pages()
                }
            },
            key.kind == KeyEventKind::Press && old(self).spec_popups().len() == 0
                && !old(self).spec_show_logs() ==> {
                &&& is_quit_key(key.code) ==> final(self).keeps(old(self), true, false, true, true, true)
                    && final(self).spec_quit() == QuitState::Close
                &&& key.code == KeyCode::Tab ==> final(self).keeps(old(self), false, true, true, true, true)
                    && final(self).spec_index() == if key.modifiers.spec_is_empty() {
                    switch_next(old(self).spec_disabled(), old(self).spec_index())
                } else if key.modifiers.shift {
                    switch_prev(old(self).spec_disabled(), old(self).spec_index())
                } else {
                    old(self).spec_index()
                }
                &&& key.code == KeyCode::BackTab ==> final(self).keeps(old(self), false, true, true, true, true)
                    && final(self).spec_index() == switch_prev(old(self).spec_disabled(), old(self).spec_index())
                &&& key.code == KeyCode::F(12) ==> final(self).keeps(old(self), true, true, true, false, true)
                    && final(self).spec_show_logs()
                &&& !is_quit_key(key.code) && key.code != KeyCode::Tab && key.code != KeyCode::BackTab
                    && key.code != KeyCode::F(12) ==> {
                    let i = old(self).spec_index();
                    &&& final(self).keeps(old(self), true, true, false, true, true)
                    &&& final(self).spec_tabs().len() == old(self).spec_tabs().len()
                    &&& final(self).spec_tabs() == old(self).spec_tabs().update(i, final(self).spec_tabs()[i])
                    &&& tab_step(
                        old(self).spec_tabs()[i],
                        key,
                        old(self).spec_bus(),
                        final(self).spec_tabs()[i],
                        final(self).spec_bus(),
                    )
                }
            },
    {
        if key.kind != KeyEventKind::Press {
            return;
        }
        if self.has_popup() {
            self.handle_popup_input(&key);
        } else if self.show_logs_window {
            self.handle_key_events_log_window(key);
        } else {
            self.handle_key_event_main_app(key);
        }
    }
}

} // verus!
