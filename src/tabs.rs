use vstd::prelude::*;

use crate::event::{AppEvent, EventBus};
use crate::keys::{KeyCode, KeyEvent};

verus! {

/// The cursor position after moving down in a list of `len` items: the next
/// item, wrapping from the last to the first. The current position is taken
/// modulo the live length, so a cursor left behind by a shrinking list stays
/// valid. An empty list keeps the cursor where it is.
pub open spec fn cursor_down(current: int, len: int) -> int {
    if len <= 0 {
        current
    } else {
        (current % len + 1) % len
    }
}

/// The cursor position after moving up: the previous item, wrapping from the
/// first to the last.
pub open spec fn cursor_up(current: int, len: int) -> int {
    if len <= 0 {
        current
    } else if current % len == 0 {
        len - 1
    } else {
        current % len - 1
    }
}

/// Moves a list cursor down by one, wrapping at the end.
pub fn next_index(current: usize, len: usize) -> (r: usize)
    ensures
        r == cursor_down(current as int, len as int),
        len > 0 ==> r < len,
{
    if len == 0 {
        current
    } else {
        let c = current % len;
        if c + 1 == len {
            proof {
                vstd::arithmetic::div_mod::lemma_mod_self_0(len as int);
            }
            0
        } else {
            proof {
                vstd::arithmetic::div_mod::lemma_small_mod((c + 1) as nat, len as nat);
            }
            c + 1
        }
    }
}

/// Moves a list cursor up by one, wrapping at the start.
pub fn prev_index(current: usize, len: usize) -> (r: usize)
    ensures
        r == cursor_up(current as int, len as int),
        len > 0 ==> r < len,
{
    if len == 0 {
        current
    } else {
        let c = current % len;
        if c == 0 {
            len - 1
        } else {
            c - 1
        }
    }
}

/// Moving down from the last item of a non-empty list lands on the first, and
/// moving up from the first lands on the last.
pub proof fn lemma_cursor_wraps(len: int)
    requires
        len >= 1,
    ensures
        cursor_down(len - 1, len) == 0,
        cursor_up(0, len) == len - 1,
{
    assert((len - 1) % len == len - 1) by (nonlinear_arith)
        requires
            len >= 1,
    ;
    assert(0int % len == 0) by (nonlinear_arith)
        requires
            len >= 1,
    ;
    assert(len % len == 0) by (nonlinear_arith)
        requires
            len >= 1,
    ;
}

pub open spec fn is_down_key(code: KeyCode) -> bool {
    code == KeyCode::Down || code == KeyCode::Char('j')
}

pub open spec fn is_up_key(code: KeyCode) -> bool {
    code == KeyCode::Up || code == KeyCode::Char('k')
}

fn down_key(code: KeyCode) -> (r: bool)
    ensures
        r == is_down_key(code),
{
    match code {
        KeyCode::Down => true,
        KeyCode::Char(c) => c == 'j',
        _ => false,
    }
}

fn up_key(code: KeyCode) -> (r: bool)
    ensures
        r == is_up_key(code),
{
    match code {
        KeyCode::Up => true,
        KeyCode::Char(c) => c == 'k',
        _ => false,
    }
}

/// The database engines the type selector offers, in display order.
#[derive(Clone, Copy, Debug, PartialEq, Eq, Structural)]
pub enum DBTypes {
    POSTGRES,
    MYSQL,
    MARIA,
    SQLITE,
}

pub const POSTGRES_STR: &'static str = "PostgreSQL";

pub const MYSQL_STR: &'static str = "MySQL";

pub const MARIA_STR: &'static str = "MariaDB";

pub const SQLITE_STR: &'static str = "SQLite";

/// How many engines the type selector lists.
pub const NUM_DB_TYPES: usize = 4;

impl DBTypes {
    pub open spec fn spec_name(self) -> Seq<char> {
        match self {
            DBTypes::POSTGRES => POSTGRES_STR@,
            DBTypes::MYSQL => MYSQL_STR@,
            DBTypes::MARIA => MARIA_STR@,
            DBTypes::SQLITE => SQLITE_STR@,
        }
    }

    /// The engine at position `i` of the selector, if there is one.
    pub open spec fn spec_at(i: int) -> Option<DBTypes> {
        if i == 0 {
            Some(DBTypes::POSTGRES)
        } else if i == 1 {
            Some(DBTypes::MYSQL)
        } else if i == 2 {
            Some(DBTypes::MARIA)
        } else if i == 3 {
            Some(DBTypes::SQLITE)
        } else {
            None
        }
    }

    /// The engine's display name.
    pub fn as_str(&self) -> (r: &'static str)
        ensures
            r@ == self.spec_name(),
    {
        match *self {
            DBTypes::POSTGRES => POSTGRES_STR,
            DBTypes::MYSQL => MYSQL_STR,
            DBTypes::MARIA => MARIA_STR,
            DBTypes::SQLITE => SQLITE_STR,
        }
    }

    pub fn at(i: usize) -> (r: Option<DBTypes>)
        ensures
            r == DBTypes::spec_at(i as int),
    {
        if i == 0 {
            Some(DBTypes::POSTGRES)
        } else if i == 1 {
            Some(DBTypes::MYSQL)
        } else if i == 2 {
            Some(DBTypes::MARIA)
        } else if i == 3 {
            Some(DBTypes::SQLITE)
        } else {
            None
        }
    }
}

/// A unit of main-view content: it has a title, can be disabled, and reacts
/// to the keys the controller forwards to it.
pub trait DBTab {
    spec fn spec_disabled(&self) -> bool;

    spec fn spec_title(&self) -> Seq<char>;

    /// Consumes one key: may change the tab's own state and may queue at most
    /// one event; the tab's enabled flag and title stay as they were.
    fn handle_input(&mut self, key: KeyEvent, app_event_bus: &mut EventBus)
        ensures
            final(self).spec_disabled() == old(self).spec_disabled(),
            final(self).spec_title() == old(self).spec_title(),
            final(app_event_bus)@ == old(app_event_bus)@ || exists|e: AppEvent|
                final(app_event_bus)@ == old(app_event_bus)@.push(e),
    ;

    fn is_disabled(&self) -> (r: bool)
        ensures
            r == self.spec_disabled(),
    ;

    fn set_disabled(&mut self, disabled: bool)
        ensures
            final(self).spec_disabled() == disabled,
            final(self).spec_title() == old(self).spec_title(),
    ;

    fn get_title(&self) -> (r: String)
        ensures
            r@ == self.spec_title(),
    ;
}

/// The database-type selector: a list of engines with a cursor; Enter picks
/// the engine under the cursor.
#[derive(Debug)]
pub struct DbTypesTab {
    pub title: String,
    pub selected: usize,
    pub disabled: bool,
}

impl Default for DbTypesTab {
    fn default() -> (r: DbTypesTab)
        ensures
            r.title@ == "Types"@,
            r.selected == 0,
            !r.disabled,
    {
        DbTypesTab { title: String::from_str("Types"), selected: 0, disabled: false }
    }
}

impl DbTypesTab {
    /// Down/`j` and Up/`k` move the cursor over the engines with wraparound;
    /// Enter queues the selection of the engine under the cursor; other keys
    /// do nothing.
    pub open spec fn spec_step(self, key: KeyEvent, bus: Seq<AppEvent>, next: Self, next_bus: Seq<AppEvent>) -> bool {
        &&& next.title == self.title
        &&& next.disabled == self.disabled
        &&& if is_down_key(key.code) {
            next.selected == cursor_down(self.selected as int, NUM_DB_TYPES as int) && next_bus == bus
        } else if is_up_key(key.code) {
            next.selected == cursor_up(self.selected as int, NUM_DB_TYPES as int) && next_bus == bus
        } else if key.code == KeyCode::Enter {
            &&& next.selected == self.selected
            &&& next_bus == match DBTypes::spec_at(self.selected as int) {
                Some(t) => bus.push(AppEvent::DBTypeSelected { db_type: t }),
                None => bus,
            }
        } else {
            next.selected == self.selected && next_bus == bus
        }
    }
}

impl DBTab for DbTypesTab {
    open spec fn spec_disabled(&self) -> bool {
        self.disabled
    }

    open spec fn spec_title(&self) -> Seq<char> {
        self.title@
    }

    fn handle_input(&mut self, key: KeyEvent, app_event_bus: &mut EventBus)
        ensures
            old(self).spec_step(key, old(app_event_bus)@, *final(self), final(app_event_bus)@),
    {
        if down_key(key.code) {
            self.selected = next_index(self.selected, NUM_DB_TYPES);
        } else if up_key(key.code) {
            self.selected = prev_index(self.selected, NUM_DB_TYPES);
        } else if key.code == KeyCode::Enter {
            if let Some(t) = DBTypes::at(self.selected) {
                app_event_bus.send(AppEvent::DBTypeSelected { db_type: t });
            }
        }
    }

    fn is_disabled(&self) -> (r: bool) {
        self.disabled
    }

    fn set_disabled(&mut self, disabled: bool)
        ensures
            final(self).selected == old(self).selected,
    {
        self.disabled = disabled;
    }

    fn get_title(&self) -> (r: String) {
        self.title.clone()
    }
}

/// A saved connection, or the entry that starts a new one.
#[derive(Debug)]
pub struct Connection {
    pub name: String,
    pub host: String,
    pub port: u16,
    pub user: String,
    pub password: String,
    pub is_create_new: bool,
}

/// The list of connections with a cursor; Enter asks for the new-connection form.
#[derive(Debug)]
pub struct DbConnectionsTab {
    pub title: String,
    pub connections: Vec<Connection>,
    pub selected: usize,
    pub disabled: bool,
}

impl Default for DbConnectionsTab {
    fn default() -> (r: DbConnectionsTab)
        ensures
            r.title@ == "Connections"@,
            r.connections@.len() == 1,
            r.connections@[0].name@ == "Create New Connection"@,
            r.connections@[0].is_create_new,
            r.connections@[0].host@.len() == 0,
            r.connections@[0].user@.len() == 0,
            r.connections@[0].password@.len() == 0,
            r.connections@[0].port == 0,
            r.selected == 0,
            !r.disabled,
    {
        let create_new_connection = Connection {
            name: String::from_str("Create New Connection"),
            host: String::new(),
            user: String::new(),
            password: String::new(),
            port: 0,
            is_create_new: true,
        };
        let mut connections = Vec::new();
        connections.push(create_new_connection);
        DbConnectionsTab {
            title: String::from_str("Connections"),
            connections,
            selected: 0,
            disabled: false,
        }
    }
}

impl DbConnectionsTab {
    /// Down/`j` and Up/`k` move the cursor over the live list with
    /// wraparound; Enter queues a request for the new-connection form.
    pub open spec fn spec_step(self, key: KeyEvent, bus: Seq<AppEvent>, next: Self, next_bus: Seq<AppEvent>) -> bool {
        let len = self.connections@.len() as int;
        &&& next.title == self.title
        &&& next.disabled == self.disabled
        &&& next.connections == self.connections
        &&& if key.code == KeyCode::Enter {
            next.selected == self.selected && next_bus == bus.push(AppEvent::NewConnection)
        } else if is_down_key(key.code) {
            next.selected == cursor_down(self.selected as int, len) && next_bus == bus
        } else if is_up_key(key.code) {
            next.selected == cursor_up(self.selected as int, len) && next_bus == bus
        } else {
            next.selected == self.selected && next_bus == bus
        }
    }
}

impl DBTab for DbConnectionsTab {
    open spec fn spec_disabled(&self) -> bool {
        self.disabled
    }

    open spec fn spec_title(&self) -> Seq<char> {
        self.title@
    }

    fn handle_input(&mut self, key: KeyEvent, app_event_bus: &mut EventBus)
        ensures
            old(self).spec_step(key, old(app_event_bus)@, *final(self), final(app_event_bus)@),
    {
        if key.code == KeyCode::Enter {
            app_event_bus.send(AppEvent::NewConnection);
        } else if down_key(key.code) {
            self.selected = next_index(self.selected, self.connections.len());
        } else if up_key(key.code) {
            self.selected = prev_index(self.selected, self.connections.len());
        }
    }

    fn is_disabled(&self) -> (r: bool) {
        self.disabled
    }

    fn set_disabled(&mut self, disabled: bool)
        ensures
            final(self).selected == old(self).selected,
            final(self).connections == old(self).connections,
    {
        self.disabled = disabled;
    }

    fn get_title(&self) -> (r: String) {
        self.title.clone()
    }
}

/// The database browser; it starts disabled until a connection exists.
#[derive(Debug)]
pub struct DbDatabasesTab {
    pub title: String,
    pub disabled: bool,
}

impl Default for DbDatabasesTab {
    fn default() -> (r: DbDatabasesTab)
        ensures
            r.title@ == "Databases"@,
            r.disabled,
    {
        DbDatabasesTab { title: String::from_str("Databases"), disabled: true }
    }
}

impl DBTab for DbDatabasesTab {
    open spec fn spec_disabled(&self) -> bool {
        self.disabled
    }

    open spec fn spec_title(&self) -> Seq<char> {
        self.title@
    }

    fn handle_input(&mut self, key: KeyEvent, app_event_bus: &mut EventBus)
        ensures
            *final(self) == *old(self),
            final(app_event_bus)@ == old(app_event_bus)@,
    {
    }

    fn is_disabled(&self) -> (r: bool) {
        self.disabled
    }

    fn set_disabled(&mut self, disabled: bool) {
        self.disabled = disabled;
    }

    fn get_title(&self) -> (r: String) {
        self.title.clone()
    }
}

/// The table and schema browser; it starts disabled until a database is open.
#[derive(Debug)]
pub struct DbTablesTab {
    pub title: String,
    pub disabled: bool,
}

impl Default for DbTablesTab {
    fn default() -> (r: DbTablesTab)
        ensures
            r.title@ == "Tables"@,
            r.disabled,
    {
        DbTablesTab { title: String::from_str("Tables"), disabled: true }
    }
}

impl DBTab for DbTablesTab {
    open spec fn spec_disabled(&self) -> bool {
        self.disabled
    }

    open spec fn spec_title(&self) -> Seq<char> {
        self.title@
    }

    fn handle_input(&mut self, key: KeyEvent, app_event_bus: &mut EventBus)
        ensures
            *final(self) == *old(self),
            final(app_event_bus)@ == old(app_event_bus)@,
    {
    }

    fn is_disabled(&self) -> (r: bool) {
        self.disabled
    }

    fn set_disabled(&mut self, disabled: bool) {
        self.disabled = disabled;
    }

    fn get_title(&self) -> (r: String) {
        self.title.clone()
    }
}

/// What one key does to a tab and to the event bus: the list tabs move
/// their cursor or queue their event, the other tabs ignore keys.
pub open spec fn tab_step(a: Tab, key: KeyEvent, bus: Seq<AppEvent>, b: Tab, next_bus: Seq<AppEvent>) -> bool {
    match (a, b) {
        (Tab::Types(x), Tab::Types(y)) => x.spec_step(key, bus, y, next_bus),
        (Tab::Connections(x), Tab::Connections(y)) => x.spec_step(key, bus, y, next_bus),
        (Tab::Databases(x), Tab::Databases(y)) => x == y && next_bus == bus,
        (Tab::Tables(x), Tab::Tables(y)) => x == y && next_bus == bus,
        _ => false,
    }
}

/// One of the workspace's tabs.
#[derive(Debug)]
pub enum Tab {
    Types(DbTypesTab),
    Connections(DbConnectionsTab),
    Databases(DbDatabasesTab),
    Tables(DbTablesTab),
}

impl DBTab for Tab {
    open spec fn spec_disabled(&self) -> bool {
        match self {
            Tab::Types(t) => t.spec_disabled(),
            Tab::Connections(t) => t.spec_disabled(),
            Tab::Databases(t) => t.spec_disabled(),
            Tab::Tables(t) => t.spec_disabled(),
        }
    }

    open spec fn spec_title(&self) -> Seq<char> {
        match self {
            Tab::Types(t) => t.spec_title(),
            Tab::Connections(t) => t.spec_title(),
            Tab::Databases(t) => t.spec_title(),
            Tab::Tables(t) => t.spec_title(),
        }
    }

    fn handle_input(&mut self, key: KeyEvent, app_event_bus: &mut EventBus)
        ensures
            tab_step(*old(self), key, old(app_event_bus)@, *final(self), final(app_event_bus)@),
    {
        match self {
            Tab::Types(t) => t.handle_input(key, app_event_bus),
            Tab::Connections(t) => t.handle_input(key, app_event_bus),
            Tab::Databases(t) => t.handle_input(key, app_event_bus),
            Tab::Tables(t) => t.handle_input(key, app_event_bus),
        }
    }

    fn is_disabled(&self) -> (r: bool) {
        match self {
            Tab::Types(t) => t.is_disabled(),
            Tab::Connections(t) => t.is_disabled(),
            Tab::Databases(t) => t.is_disabled(),
            Tab::Tables(t) => t.is_disabled(),
        }
    }

    fn set_disabled(&mut self, disabled: bool) {
        match self {
            Tab::Types(t) => t.set_disabled(disabled),
            Tab::Connections(t) => t.set_disabled(disabled),
            Tab::Databases(t) => t.set_disabled(disabled),
            Tab::Tables(t) => t.set_disabled(disabled),
        }
    }

    fn get_title(&self) -> (r: String) {
        match self {
            Tab::Types(t) => t.get_title(),
            Tab::Connections(t) => t.get_title(),
            Tab::Databases(t) => t.get_title(),
            Tab::Tables(t) => t.get_title(),
        }
    }
}

} // verus!
