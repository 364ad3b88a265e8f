use tui_textarea::{Input, Key, TextArea};
use vstd::prelude::*;

use crate::event::{AppEvent, EventBus};
use crate::keys::{KeyCode, KeyEvent};

verus! {

/// An editable single-field text buffer, kept by tui-textarea.
#[verifier::external_body]
#[derive(Debug)]
pub struct TextBuffer {
    area: TextArea<'static>,
}

/// The lines of text that a buffer holds.
pub uninterp spec fn text_lines(t: TextBuffer) -> Seq<Seq<char>>;

/// The character a buffer is drawn with in place of each typed one, if any.
pub uninterp spec fn text_mask(t: TextBuffer) -> Option<char>;

/// A buffer holds no text when none of its lines holds a character.
pub open spec fn text_is_empty(lines: Seq<Seq<char>>) -> bool {
    forall|i: int| 0 <= i < lines.len() ==> #[trigger] lines[i].len() == 0
}

/// A key that types its character: a character other than a line break,
/// with neither Control nor Alt held.
pub open spec fn is_typed_char(key: KeyEvent) -> bool {
    &&& key.code matches KeyCode::Char(c) && c != '\n' && c != '\r'
    &&& !key.modifiers.control
    &&& !key.modifiers.alt
}

impl TextBuffer {
    /// Relies on `TextArea::default` of tui-textarea: a buffer holding one
    /// empty line, drawn without a mask.
    #[verifier::external_body]
    pub(crate) fn new() -> (r: TextBuffer)
        ensures
            text_lines(r) == seq![Seq::<char>::empty()],
            text_mask(r) is None,
    {
        TextBuffer { area: TextArea::default() }
    }

    /// Relies on `TextArea::set_mask_char` of tui-textarea: it sets the mask
    /// and leaves the text as it is.
    #[verifier::external_body]
    pub(crate) fn set_mask_char(&mut self, mask: char)
        ensures
            text_lines(*final(self)) == text_lines(*old(self)),
            text_mask(*final(self)) == Some(mask),
    {
        self.area.set_mask_char(mask)
    }

    /// Relies on `TextArea::input` of tui-textarea: it edits the text by its own
    /// key map and keeps the mask; a typed character is inserted at the
    /// cursor, so some line then holds a character.
    #[verifier::external_body]
    pub(crate) fn input(&mut self, key: &KeyEvent)
        ensures
            text_mask(*final(self)) == text_mask(*old(self)),
            text_lines(*final(self)).len() > 0,
            is_typed_char(*key) ==> !text_is_empty(text_lines(*final(self))),
    {
        let k = match key.code {
            KeyCode::Char(c) => Key::Char(c), KeyCode::F(n) => Key::F(n),
            KeyCode::Backspace => Key::Backspace, KeyCode::Enter => Key::Enter,
            KeyCode::Left => Key::Left, KeyCode::Right => Key::Right,
            KeyCode::Up => Key::Up, KeyCode::Down => Key::Down,
            KeyCode::Tab => Key::Tab, KeyCode::Delete => Key::Delete,
            KeyCode::Home => Key::Home, KeyCode::End => Key::End,
            KeyCode::PageUp => Key::PageUp, KeyCode::PageDown => Key::PageDown,
            KeyCode::Esc => Key::Esc, _ => Key::Null,
        };
        let m = key.modifiers;
        self.area.input(Input { key: k, ctrl: m.control, alt: m.alt, shift: m.shift });
    }

    /// Relies on `TextArea::lines` of tui-textarea: the buffer's lines, of
    /// which there is always at least one.
    #[verifier::external_body]
    pub(crate) fn lines(&self) -> (r: Vec<String>)
        ensures
            r@.len() > 0,
            r@.len() == text_lines(*self).len(),
            forall|i: int| 0 <= i < r@.len() ==> #[trigger] r@[i]@ == text_lines(*self)[i],
    {
        self.area.lines().to_vec()
    }

    /// Whether the buffer holds no text at all.
    pub fn is_empty(&self) -> (r: bool)
        ensures
            r == text_is_empty(text_lines(*self)),
    {
        let lines = self.lines();
        let mut k: usize = 0;
        while k < lines.len()
            invariant
                lines@.len() == text_lines(*self).len(),
                forall|i: int| 0 <= i < lines@.len() ==> #[trigger] lines@[i]@ == text_lines(*self)[i],
                k <= lines@.len(),
                forall|i: int| 0 <= i < k ==> #[trigger] text_lines(*self)[i].len() == 0,
            decreases lines@.len() - k,
        {
            if !lines[k].as_str().is_empty() {
                assert(lines@[k as int]@ == text_lines(*self)[k as int]);
                return false;
            }
            assert(lines@[k as int]@ == text_lines(*self)[k as int]);
            k = k + 1;
        }
        true
    }
}

/// The four inputs of the connection form, in focus order.
#[derive(Clone, Copy, Debug, PartialEq, Eq, Structural)]
pub enum ActiveText {
    Host,
    DbName,
    Username,
    Password,
}

impl ActiveText {
    /// The field after this one, wrapping from Password to Host.
    pub open spec fn spec_next(self) -> ActiveText {
        match self {
            ActiveText::Host => ActiveText::DbName,
            ActiveText::DbName => ActiveText::Username,
            ActiveText::Username => ActiveText::Password,
            ActiveText::Password => ActiveText::Host,
        }
    }

    /// The field before this one, wrapping from Host to Password.
    pub open spec fn spec_prev(self) -> ActiveText {
        match self {
            ActiveText::Host => ActiveText::Password,
            ActiveText::DbName => ActiveText::Host,
            ActiveText::Username => ActiveText::DbName,
            ActiveText::Password => ActiveText::Username,
        }
    }

    /// The message shown under the field when it is left empty.
    pub open spec fn spec_empty_error(self) -> Seq<char> {
        match self {
            ActiveText::Host => "Host cannot be empty."@,
            ActiveText::DbName => "Database name cannot be empty."@,
            ActiveText::Username => "Username cannot be empty."@,
            ActiveText::Password => "Password cannot be empty."@,
        }
    }

    pub fn next(self) -> (r: ActiveText)
        ensures
            r == self.spec_next(),
    {
        match self {
            ActiveText::Host => ActiveText::DbName,
            ActiveText::DbName => ActiveText::Username,
            ActiveText::Username => ActiveText::Password,
            ActiveText::Password => ActiveText::Host,
        }
    }

    pub fn prev(self) -> (r: ActiveText)
        ensures
            r == self.spec_prev(),
    {
        match self {
            ActiveText::Host => ActiveText::Password,
            ActiveText::DbName => ActiveText::Host,
            ActiveText::Username => ActiveText::DbName,
            ActiveText::Password => ActiveText::Username,
        }
    }

    fn empty_error(self) -> (r: String)
        ensures
            r@ == self.spec_empty_error(),
    {
        match self {
            ActiveText::Host => String::from_str("Host cannot be empty."),
            ActiveText::DbName => String::from_str("Database name cannot be empty."),
            ActiveText::Username => String::from_str("Username cannot be empty."),
            ActiveText::Password => String::from_str("Password cannot be empty."),
        }
    }
}

/// The error a field's text earns: its empty-field message when the buffer
/// holds no text, no message otherwise.
pub open spec fn field_error(f: ActiveText, text: TextBuffer) -> Seq<char> {
    if text_is_empty(text_lines(text)) {
        f.spec_empty_error()
    } else {
        Seq::empty()
    }
}

/// The bullet that the password input shows in place of each character.
pub const PASSWORD_MASK: char = '\u{2022}';

/// The form that collects a new connection's host, database name, user name
/// and password, each in its own text buffer with its own error message.
#[derive(Debug)]
pub struct DbConnectionPopup {
    db_driver_name: &'static str,
    host_txt: TextBuffer,
    dbname_txt: TextBuffer,
    username_txt: TextBuffer,
    password_txt: TextBuffer,
    active_txt: ActiveText,
    host_err_msg: String,
    dbname_err_msg: String,
    username_err_msg: String,
    password_err_msg: String,
}

/// Whether a key cancels the form: Esc, or `c` with Control held.
pub open spec fn is_cancel_key(key: KeyEvent) -> bool {
    key.code == KeyCode::Esc || (key.code == KeyCode::Char('c') && key.modifiers.control)
}

impl DbConnectionPopup {
    pub closed spec fn spec_driver(&self) -> Seq<char> {
        self.db_driver_name@
    }

    pub closed spec fn spec_active(&self) -> ActiveText {
        self.active_txt
    }

    pub closed spec fn spec_text(&self, f: ActiveText) -> TextBuffer {
        match f {
            ActiveText::Host => self.host_txt,
            ActiveText::DbName => self.dbname_txt,
            ActiveText::Username => self.username_txt,
            ActiveText::Password => self.password_txt,
        }
    }

    pub closed spec fn spec_error(&self, f: ActiveText) -> Seq<char> {
        match f {
            ActiveText::Host => self.host_err_msg@,
            ActiveText::DbName => self.dbname_err_msg@,
            ActiveText::Username => self.username_err_msg@,
            ActiveText::Password => self.password_err_msg@,
        }
    }

    /// A form just opened for `driver`: focus on Host, one empty line in
    /// each field, no errors, and only the password drawn masked with a bullet.
    pub open spec fn is_fresh(self, driver: Seq<char>) -> bool {
        &&& self.spec_driver() == driver
        &&& self.spec_active() == ActiveText::Host
        &&& forall|f: ActiveText| text_lines(#[trigger] self.spec_text(f)) == seq![Seq::<char>::empty()]
        &&& forall|f: ActiveText| #[trigger] self.spec_error(f) == Seq::<char>::empty()
        &&& forall|f: ActiveText|
            #[trigger] text_mask(self.spec_text(f)) == if f == ActiveText::Password {
                Some(PASSWORD_MASK)
            } else {
                None
            }
    }

    /// An empty form for the given driver, as `is_fresh` states.
    pub fn new(db_driver_name: &'static str) -> (r: DbConnectionPopup)
        ensures
            r.is_fresh(db_driver_name@),
    {
        let mut password_area = TextBuffer::new();
        password_area.set_mask_char(PASSWORD_MASK);
        DbConnectionPopup {
            db_driver_name,
            host_txt: TextBuffer::new(),
            dbname_txt: TextBuffer::new(),
            username_txt: TextBuffer::new(),
            password_txt: password_area,
            active_txt: ActiveText::Host,
            host_err_msg: String::new(),
            dbname_err_msg: String::new(),
            username_err_msg: String::new(),
            password_err_msg: String::new(),
        }
    }

    pub fn get_db_driver_name(&self) -> (r: &'static str)
        ensures
            r@ == self.spec_driver(),
    {
        self.db_driver_name
    }

    /// The field that typed text goes to.
    pub fn active_field(&self) -> (r: ActiveText)
        ensures
            r == self.spec_active(),
    {
        self.active_txt
    }

    /// The text buffer of a field.
    pub fn text_area(&self, f: ActiveText) -> (r: &TextBuffer)
        ensures
            *r == self.spec_text(f),
    {
        match f {
            ActiveText::Host => &self.host_txt,
            ActiveText::DbName => &self.dbname_txt,
            ActiveText::Username => &self.username_txt,
            ActiveText::Password => &self.password_txt,
        }
    }

    /// The lines of text a field holds.
    pub fn field_text(&self, f: ActiveText) -> (r: Vec<String>)
        ensures
            r@.len() == text_lines(self.spec_text(f)).len(),
            forall|i: int| 0 <= i < r@.len() ==> #[trigger] r@[i]@ == text_lines(self.spec_text(f))[i],
    {
        self.text_area(f).lines()
    }

    /// The error message currently shown for a field; empty when it has none.
    pub fn error_message(&self, f: ActiveText) -> (r: &str)
        ensures
            r@ == self.spec_error(f),
    {
        match f {
            ActiveText::Host => self.host_err_msg.as_str(),
            ActiveText::DbName => self.dbname_err_msg.as_str(),
            ActiveText::Username => self.username_err_msg.as_str(),
            ActiveText::Password => self.password_err_msg.as_str(),
        }
    }

    /// Re-checks one field: its error becomes what its text earns; nothing
    /// else changes.
    fn validate_field(&mut self, f: ActiveText)
        ensures
            final(self).spec_error(f) == field_error(f, old(self).spec_text(f)),
            forall|g: ActiveText| g != f ==> #[trigger] final(self).spec_error(g) == old(self).spec_error(g),
            forall|g: ActiveText| #[trigger] final(self).spec_text(g) == old(self).spec_text(g),
            final(self).spec_active() == old(self).spec_active(),
            final(self).spec_driver() == old(self).spec_driver(),
    {
        let empty = self.text_area(f).is_empty();
        let msg = if empty {
            f.empty_error()
        } else {
            String::new()
        };
        match f {
            ActiveText::Host => self.host_err_msg = msg,
            ActiveText::DbName => self.dbname_err_msg = msg,
            ActiveText::Username => self.username_err_msg = msg,
            ActiveText::Password => self.password_err_msg = msg,
        }
    }

    /// Re-checks every field; true when none has an error.
    fn validate_all(&mut self) -> (r: bool)
        ensures
            forall|g: ActiveText| #[trigger] final(self).spec_error(g) == field_error(g, old(self).spec_text(g)),
            forall|g: ActiveText| #[trigger] final(self).spec_text(g) == old(self).spec_text(g),
            final(self).spec_active() == old(self).spec_active(),
            final(self).spec_driver() == old(self).spec_driver(),
            r == forall|g: ActiveText| #[trigger] final(self).spec_error(g).len() == 0,
    {
        self.validate_field(ActiveText::Host);
        self.validate_field(ActiveText::DbName);
        self.validate_field(ActiveText::Username);
        self.validate_field(ActiveText::Password);
        let r = self.host_err_msg.as_str().is_empty() && self.dbname_err_msg.as_str().is_empty()
            && self.username_err_msg.as_str().is_empty() && self.password_err_msg.as_str().is_empty();
        proof {
            if !r {
                assert(!(forall|g: ActiveText| #[trigger] self.spec_error(g).len() == 0)) by {
                    if self.host_err_msg@.len() != 0 {
                        assert(self.spec_error(ActiveText::Host).len() != 0);
                    } else if self.dbname_err_msg@.len() != 0 {
                        assert(self.spec_error(ActiveText::DbName).len() != 0);
                    } else if self.username_err_msg@.len() != 0 {
                        assert(self.spec_error(ActiveText::Username).len() != 0);
                    } else {
                        assert(self.spec_error(ActiveText::Password).len() != 0);
                    }
                }
            }
        }
        r
    }

    /// Enter: checks every field. The form stays open either way; a valid
    /// form has no further effect yet.
    fn confirm(&mut self) -> (r: bool)
        ensures
            forall|g: ActiveText| #[trigger] final(self).spec_error(g) == field_error(g, old(self).spec_text(g)),
            forall|g: ActiveText| #[trigger] final(self).spec_text(g) == old(self).spec_text(g),
            final(self).spec_active() == old(self).spec_active(),
            final(self).spec_driver() == old(self).spec_driver(),
            r == forall|g: ActiveText| #[trigger] final(self).spec_error(g).len() == 0,
    {
        self.validate_all()
    }

    fn cancel(&mut self, app_event_bus: &mut EventBus)
        ensures
            *final(self) == *old(self),
            final(app_event_bus)@ == old(app_event_bus)@.push(AppEvent::CancelClosePopup),
    {
        app_event_bus.send(AppEvent::CancelClosePopup);
    }

    /// Hands a key to the focused field's buffer, then re-checks that field alone.
    fn handle_text_input(&mut self, key: &KeyEvent)
        ensures
            final(self).spec_active() == old(self).spec_active(),
            final(self).spec_driver() == old(self).spec_driver(),
            final(self).spec_error(old(self).spec_active()) == field_error(
                old(self).spec_active(),
                final(self).spec_text(old(self).spec_active()),
            ),
            forall|g: ActiveText|
                g != old(self).spec_active() ==> #[trigger] final(self).spec_text(g) == old(self).spec_text(g),
            forall|g: ActiveText|
                g != old(self).spec_active() ==> #[trigger] final(self).spec_error(g) == old(self).spec_error(g),
            forall|g: ActiveText| #[trigger] text_mask(final(self).spec_text(g)) == text_mask(old(self).spec_text(g)),
            is_typed_char(*key) ==> !text_is_empty(text_lines(final(self).spec_text(old(self).spec_active()))),
    {
        match self.active_txt {
            ActiveText::Host => self.host_txt.input(key),
            ActiveText::DbName => self.dbname_txt.input(key),
            ActiveText::Username => self.username_txt.input(key),
            ActiveText::Password => self.password_txt.input(key),
        }
        let f = self.active_txt;
        self.validate_field(f);
    }

    /// Esc or Ctrl+C queues a cancel and changes nothing; Enter checks all
    /// four fields and keeps the form open; Tab or Down focuses the next
    /// field and Up the previous one; any other key edits the focused field
    /// and re-checks that field alone.
    pub open spec fn spec_handles(
        self,
        key: KeyEvent,
        bus: Seq<AppEvent>,
        next: Self,
        next_bus: Seq<AppEvent>,
    ) -> bool {
        &&& (next.spec_driver() == self.spec_driver())
        &&& (is_cancel_key(key) ==> next == self && next_bus == bus.push(AppEvent::CancelClosePopup))
        &&& (!is_cancel_key(key) ==> next_bus == bus)
        &&& (key.code == KeyCode::Enter ==> {
                &&& forall|g: ActiveText| #[trigger] next.spec_error(g) == field_error(g, self.spec_text(g))
                &&& forall|g: ActiveText| #[trigger] next.spec_text(g) == self.spec_text(g)
                &&& next.spec_active() == self.spec_active()
            })
        &&& ((key.code == KeyCode::Tab || key.code == KeyCode::Down) ==> {
                &&& next.spec_active() == self.spec_active().spec_next()
                &&& forall|g: ActiveText| #[trigger] next.spec_text(g) == self.spec_text(g)
                &&& forall|g: ActiveText| #[trigger] next.spec_error(g) == self.spec_error(g)
            })
        &&& (key.code == KeyCode::Up ==> {
                &&& next.spec_active() == self.spec_active().spec_prev()
                &&& forall|g: ActiveText| #[trigger] next.spec_text(g) == self.spec_text(g)
                &&& forall|g: ActiveText| #[trigger] next.spec_error(g) == self.spec_error(g)
            })
        &&& ((!is_cancel_key(key) && key.code != KeyCode::Enter && key.code != KeyCode::Tab
                && key.code != KeyCode::Down && key.code != KeyCode::Up) ==> {
                let f = self.spec_active();
                &&& next.spec_active() == f
                &&& next.spec_error(f) == field_error(f, next.spec_text(f))
                &&& forall|g: ActiveText| g != f ==> #[trigger] next.spec_text(g) == self.spec_text(g)
                &&& forall|g: ActiveText| g != f ==> #[trigger] next.spec_error(g) == self.spec_error(g)
                &&& forall|g: ActiveText| #[trigger] text_mask(next.spec_text(g)) == text_mask(self.spec_text(g))
                &&& is_typed_char(key) ==> !text_is_empty(text_lines(next.spec_text(f)))
                    && next.spec_error(f).len() == 0
            })
    }

    /// Applies one key to the form, as `spec_handles` states.
    pub fn handle_input(&mut self, key: &KeyEvent, app_event_bus: &mut EventBus)
        ensures
            old(self).spec_handles(*key, old(app_event_bus)@, *final(self), final(app_event_bus)@),
    {
        let code = key.code;
        if code == KeyCode::Esc || (code == KeyCode::Char('c') && key.modifiers.control) {
            self.cancel(app_event_bus);
        } else if code == KeyCode::Enter {
            self.confirm();
        } else if code == KeyCode::Tab || code == KeyCode::Down {
            self.active_txt = self.active_txt.next();
        } else if code == KeyCode::Up {
            self.active_txt = self.active_txt.prev();
        } else {
            self.handle_text_input(key);
        }
    }
}

/// Pressing Enter on the form checks all four fields and queues nothing, so
/// the form stays open: each field left empty gets its own non-empty
/// "cannot be empty" message, each filled field has no message, and when all
/// four are filled no message remains.
pub proof fn lemma_submit_checks_every_field(
    a: DbConnectionPopup,
    key: KeyEvent,
    bus: Seq<AppEvent>,
    b: DbConnectionPopup,
    next_bus: Seq<AppEvent>,
)
    requires
        key.code == KeyCode::Enter,
        a.spec_handles(key, bus, b, next_bus),
    ensures
        next_bus == bus,
        forall|f: ActiveText|
            text_is_empty(text_lines(#[trigger] a.spec_text(f))) ==> b.spec_error(f) == f.spec_empty_error()
                && b.spec_error(f).len() > 0,
        forall|f: ActiveText| !text_is_empty(text_lines(#[trigger] a.spec_text(f))) ==> b.spec_error(f).len() == 0,
        (forall|f: ActiveText| !text_is_empty(text_lines(#[trigger] a.spec_text(f)))) ==> forall|f: ActiveText|
            #[trigger] b.spec_error(f).len() == 0,
{
    assert forall|f: ActiveText| text_is_empty(text_lines(#[trigger] a.spec_text(f))) implies b.spec_error(f)
        == f.spec_empty_error() && b.spec_error(f).len() > 0 by {
        assert(b.spec_error(f) == field_error(f, a.spec_text(f)));
        reveal_strlit("Host cannot be empty.");
        reveal_strlit("Database name cannot be empty.");
        reveal_strlit("Username cannot be empty.");
        reveal_strlit("Password cannot be empty.");
    }
    assert forall|f: ActiveText| !text_is_empty(text_lines(#[trigger] a.spec_text(f))) implies b.spec_error(f).len()
        == 0 by {
        assert(b.spec_error(f) == field_error(f, a.spec_text(f)));
    }
    if forall|f: ActiveText| !text_is_empty(text_lines(#[trigger] a.spec_text(f))) {
        assert forall|f: ActiveText| #[trigger] b.spec_error(f).len() == 0 by {
            assert(b.spec_error(f) == field_error(f, a.spec_text(f)));
            assert(!text_is_empty(text_lines(a.spec_text(f))));
        }
    }
}

} // verus!
