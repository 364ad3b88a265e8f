use vstd::prelude::*;

verus! {

/// A key on the keyboard, independent of any terminal backend.
#[derive(Clone, Copy, Debug, PartialEq, Eq, Structural, Hash)]
pub enum KeyCode {
    Backspace,
    Enter,
    Left,
    Right,
    Up,
    Down,
    Home,
    End,
    PageUp,
    PageDown,
    Tab,
    BackTab,
    Delete,
    Insert,
    F(u8),
    Char(char),
    Null,
    Esc,
}

/// The modifier keys held while a key was pressed.
#[derive(Clone, Copy, Debug, PartialEq, Eq, Structural, Hash)]
pub struct KeyModifiers {
    pub shift: bool,
    pub control: bool,
    pub alt: bool,
    pub super_key: bool,
    pub hyper: bool,
    pub meta: bool,
}

impl KeyModifiers {
    pub open spec fn spec_is_empty(&self) -> bool {
        !self.shift && !self.control && !self.alt && !self.super_key && !self.hyper && !self.meta
    }

    /// No modifier held.
    pub fn empty() -> (r: KeyModifiers)
        ensures
            r.spec_is_empty(),
    {
        KeyModifiers {
            shift: false,
            control: false,
            alt: false,
            super_key: false,
            hyper: false,
            meta: false,
        }
    }

    /// Only Shift held.
    pub fn shift() -> (r: KeyModifiers)
        ensures
            r == (KeyModifiers { shift: true, ..KeyModifiers::empty_spec() }),
    {
        KeyModifiers { shift: true, ..KeyModifiers::empty() }
    }

    /// Only Control held.
    pub fn control() -> (r: KeyModifiers)
        ensures
            r == (KeyModifiers { control: true, ..KeyModifiers::empty_spec() }),
    {
        KeyModifiers { control: true, ..KeyModifiers::empty() }
    }

    pub open spec fn empty_spec() -> KeyModifiers {
        KeyModifiers {
            shift: false,
            control: false,
            alt: false,
            super_key: false,
            hyper: false,
            meta: false,
        }
    }

    #[verifier::when_used_as_spec(spec_is_empty)]
    pub fn is_empty(&self) -> (r: bool)
        ensures
            r == self.spec_is_empty(),
    {
        !self.shift && !self.control && !self.alt && !self.super_key && !self.hyper && !self.meta
    }
}

/// Whether a key went down, repeats, or came up.
#[derive(Clone, Copy, Debug, PartialEq, Eq, Structural, Hash)]
pub enum KeyEventKind {
    Press,
    Repeat,
    Release,
}

/// One keyboard event as the controller receives it.
#[derive(Clone, Copy, Debug, PartialEq, Eq, Structural, Hash)]
pub struct KeyEvent {
    pub code: KeyCode,
    pub modifiers: KeyModifiers,
    pub kind: KeyEventKind,
}

impl KeyEvent {
    /// A key press of `code` with `modifiers` held.
    pub fn new(code: KeyCode, modifiers: KeyModifiers) -> (r: KeyEvent)
        ensures
            r == (KeyEvent { code, modifiers, kind: KeyEventKind::Press }),
    {
        KeyEvent { code, modifiers, kind: KeyEventKind::Press }
    }
}

/// A configurable key binding: a key together with its modifiers.
#[derive(Clone, Copy, Debug)]
pub struct GituiKeyEvent {
    pub code: KeyCode,
    pub modifiers: KeyModifiers,
}

pub open spec fn is_ascii_upper(c: char) -> bool {
    'A' <= c <= 'Z'
}

pub open spec fn is_ascii_lower(c: char) -> bool {
    'a' <= c <= 'z'
}

/// The code point of `c` with an ASCII lower-case letter raised to upper case.
pub open spec fn upper_code(c: char) -> u32 {
    if is_ascii_lower(c) {
        (c as u32 - 32) as u32
    } else {
        c as u32
    }
}

/// A binding with letter case folded into the Shift modifier: an upper-case
/// letter implies Shift, and Shift with a letter means its upper case.
pub open spec fn normalized_shift(code: KeyCode, m: KeyModifiers) -> bool {
    match code {
        KeyCode::Char(c) => m.shift || is_ascii_upper(c),
        _ => m.shift,
    }
}

pub open spec fn same_binding(a: GituiKeyEvent, b: GituiKeyEvent) -> bool {
    &&& normalized_shift(a.code, a.modifiers) == normalized_shift(b.code, b.modifiers)
    &&& (KeyModifiers { shift: true, ..a.modifiers }) == (KeyModifiers { shift: true, ..b.modifiers })
    &&& match (a.code, b.code) {
        (KeyCode::Char(x), KeyCode::Char(y)) => if a.modifiers.shift && !is_ascii_upper(x) {
            if b.modifiers.shift && !is_ascii_upper(y) {
                upper_code(x) == upper_code(y)
            } else {
                upper_code(x) == y as u32
            }
        } else {
            if b.modifiers.shift && !is_ascii_upper(y) {
                x as u32 == upper_code(y)
            } else {
                x == y
            }
        },
        _ => a.code == b.code,
    }
}

fn char_code(c: char, shift: bool) -> (r: u32)
    ensures
        r == (if shift && !is_ascii_upper(c) { upper_code(c) } else { c as u32 }),
{
    let v = c as u32;
    if shift && !('A' <= c && c <= 'Z') && 'a' <= c && c <= 'z' {
        v - 32
    } else {
        v
    }
}

impl GituiKeyEvent {
    pub fn new(code: KeyCode, modifiers: KeyModifiers) -> (r: GituiKeyEvent)
        ensures
            r.code == code,
            r.modifiers == modifiers,
    {
        GituiKeyEvent { code, modifiers }
    }
}

impl PartialEq for GituiKeyEvent {
    /// Two bindings are equal when they name the same key press once letter
    /// case has been folded into the Shift modifier.
    fn eq(&self, other: &GituiKeyEvent) -> (r: bool)
        ensures
            r == same_binding(*self, *other),
    {
        let a = self.modifiers;
        let b = other.modifiers;
        let shift_a = match self.code {
            KeyCode::Char(c) => a.shift || ('A' <= c && c <= 'Z'),
            _ => a.shift,
        };
        let shift_b = match other.code {
            KeyCode::Char(c) => b.shift || ('A' <= c && c <= 'Z'),
            _ => b.shift,
        };
        let rest = a.control == b.control && a.alt == b.alt && a.super_key == b.super_key
            && a.hyper == b.hyper && a.meta == b.meta;
        let codes = match (self.code, other.code) {
            (KeyCode::Char(x), KeyCode::Char(y)) => char_code(x, a.shift) == char_code(y, b.shift),
            (x, y) => x == y,
        };
        shift_a == shift_b && rest && codes
    }
}

impl vstd::std_specs::cmp::PartialEqSpecImpl for GituiKeyEvent {
    open spec fn obeys_eq_spec() -> bool {
        true
    }

    open spec fn eq_spec(&self, other: &GituiKeyEvent) -> bool {
        same_binding(*self, *other)
    }
}

/// Whether a key event is exactly the given binding: same key, same modifiers.
pub fn key_match(ev: &KeyEvent, binding: GituiKeyEvent) -> (r: bool)
    ensures
        r == (ev.code == binding.code && ev.modifiers == binding.modifiers),
{
    ev.code == binding.code && ev.modifiers == binding.modifiers
}


/// The application's configurable key bindings.
#[derive(Clone, Copy, Debug)]
pub struct KeysList {
    pub exit: GituiKeyEvent,
    pub quit: GituiKeyEvent,
    pub move_left: GituiKeyEvent,
    pub move_left_h: GituiKeyEvent,
    pub move_right: GituiKeyEvent,
    pub move_right_l: GituiKeyEvent,
    pub move_up: GituiKeyEvent,
    pub move_up_k: GituiKeyEvent,
    pub move_down: GituiKeyEvent,
    pub move_down_j: GituiKeyEvent,
}

/// A partial set of bindings read from a configuration file: each present
/// field replaces the binding of the same name.
#[derive(Clone, Copy, Debug)]
pub struct KeysListPatch {
    pub exit: Option<GituiKeyEvent>,
    pub quit: Option<GituiKeyEvent>,
    pub move_left: Option<GituiKeyEvent>,
    pub move_left_h: Option<GituiKeyEvent>,
    pub move_right: Option<GituiKeyEvent>,
    pub move_right_l: Option<GituiKeyEvent>,
    pub move_up: Option<GituiKeyEvent>,
    pub move_up_k: Option<GituiKeyEvent>,
    pub move_down: Option<GituiKeyEvent>,
    pub move_down_j: Option<GituiKeyEvent>,
}

pub open spec fn binding(code: KeyCode, modifiers: KeyModifiers) -> GituiKeyEvent {
    GituiKeyEvent { code, modifiers }
}

pub open spec fn patched(old: GituiKeyEvent, p: Option<GituiKeyEvent>) -> GituiKeyEvent {
    match p {
        Some(b) => b,
        None => old,
    }
}

fn patch_one(old: GituiKeyEvent, p: Option<GituiKeyEvent>) -> (r: GituiKeyEvent)
    ensures
        r == patched(old, p),
{
    match p {
        Some(b) => b,
        None => old,
    }
}

impl KeysList {
    /// The built-in bindings: Ctrl+C exits, `q` quits, arrows and `hjkl` move.
    pub open spec fn spec_default() -> KeysList {
        let none = KeyModifiers::empty_spec();
        KeysList {
            exit: binding(KeyCode::Char('c'), KeyModifiers { control: true, ..none }),
            quit: binding(KeyCode::Char('q'), none),
            move_left: binding(KeyCode::Left, none),
            move_left_h: binding(KeyCode::Char('h'), none),
            move_right: binding(KeyCode::Right, none),
            move_right_l: binding(KeyCode::Char('l'), none),
            move_up: binding(KeyCode::Up, none),
            move_up_k: binding(KeyCode::Char('k'), none),
            move_down: binding(KeyCode::Down, none),
            move_down_j: binding(KeyCode::Char('j'), none),
        }
    }

    pub open spec fn spec_apply(self, p: KeysListPatch) -> KeysList {
        KeysList {
            exit: patched(self.exit, p.exit),
            quit: patched(self.quit, p.quit),
            move_left: patched(self.move_left, p.move_left),
            move_left_h: patched(self.move_left_h, p.move_left_h),
            move_right: patched(self.move_right, p.move_right),
            move_right_l: patched(self.move_right_l, p.move_right_l),
            move_up: patched(self.move_up, p.move_up),
            move_up_k: patched(self.move_up_k, p.move_up_k),
            move_down: patched(self.move_down, p.move_down),
            move_down_j: patched(self.move_down_j, p.move_down_j),
        }
    }

    /// Replaces each binding that the patch holds, keeps the others.
    pub fn apply(&mut self, p: KeysListPatch)
        ensures
            *final(self) == old(self).spec_apply(p),
    {
        self.exit = patch_one(self.exit, p.exit);
        self.quit = patch_one(self.quit, p.quit);
        self.move_left = patch_one(self.move_left, p.move_left);
        self.move_left_h = patch_one(self.move_left_h, p.move_left_h);
        self.move_right = patch_one(self.move_right, p.move_right);
        self.move_right_l = patch_one(self.move_right_l, p.move_right_l);
        self.move_up = patch_one(self.move_up, p.move_up);
        self.move_up_k = patch_one(self.move_up_k, p.move_up_k);
        self.move_down = patch_one(self.move_down, p.move_down);
        self.move_down_j = patch_one(self.move_down_j, p.move_down_j);
    }

    /// The default bindings with the configured patch, if one was read, laid over them.
    pub fn init(patch: Option<KeysListPatch>) -> (r: KeysList)
        ensures
            r == (match patch {
                Some(p) => KeysList::spec_default().spec_apply(p),
                None => KeysList::spec_default(),
            }),
    {
        let mut keys_list = KeysList::default();
        if let Some(p) = patch {
            keys_list.apply(p);
        }
        keys_list
    }
}

impl Default for KeysList {
    fn default() -> (r: KeysList)
        ensures
            r == KeysList::spec_default(),
    {
        let none = KeyModifiers::empty();
        KeysList {
            exit: GituiKeyEvent::new(KeyCode::Char('c'), KeyModifiers::control()),
            quit: GituiKeyEvent::new(KeyCode::Char('q'), none),
            move_left: GituiKeyEvent::new(KeyCode::Left, none),
            move_left_h: GituiKeyEvent::new(KeyCode::Char('h'), none),
            move_right: GituiKeyEvent::new(KeyCode::Right, none),
            move_right_l: GituiKeyEvent::new(KeyCode::Char('l'), none),
            move_up: GituiKeyEvent::new(KeyCode::Up, none),
            move_up_k: GituiKeyEvent::new(KeyCode::Char('k'), none),
            move_down: GituiKeyEvent::new(KeyCode::Down, none),
            move_down_j: GituiKeyEvent::new(KeyCode::Char('j'), none),
        }
    }
}

} // verus!
