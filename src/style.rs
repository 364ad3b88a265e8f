use vstd::prelude::*;

verus! {

/// A terminal colour.
#[derive(Clone, Copy, Debug, PartialEq, Eq, Structural, Hash)]
pub enum Color {
    Reset,
    Black,
    Red,
    Green,
    Yellow,
    Blue,
    Magenta,
    Cyan,
    Gray,
    DarkGray,
    LightRed,
    LightGreen,
    LightYellow,
    LightBlue,
    LightMagenta,
    LightCyan,
    White,
    Rgb(u8, u8, u8),
    Indexed(u8),
}

/// How a piece of text is drawn: foreground and background colour, each
/// possibly left to the terminal, and whether it is bold.
#[derive(Clone, Copy, Debug, PartialEq, Eq, Structural, Hash)]
pub struct Style {
    pub fg: Option<Color>,
    pub bg: Option<Color>,
    pub bold: bool,
}

impl Style {
    /// The plain style: no colours, not bold.
    pub open spec fn plain() -> Style {
        Style { fg: None, bg: None, bold: false }
    }

    pub fn new() -> (r: Style)
        ensures
            r == Style::plain(),
    {
        Style { fg: None, bg: None, bold: false }
    }

    /// The same style with the given foreground colour.
    pub fn fg(self, color: Color) -> (r: Style)
        ensures
            r == (Style { fg: Some(color), ..self }),
    {
        Style { fg: Some(color), ..self }
    }

    /// The same style with the given background colour.
    pub fn bg(self, color: Color) -> (r: Style)
        ensures
            r == (Style { bg: Some(color), ..self }),
    {
        Style { bg: Some(color), ..self }
    }

    /// The same style, bold.
    pub fn bold(self) -> (r: Style)
        ensures
            r == (Style { bold: true, ..self }),
    {
        Style { bold: true, ..self }
    }
}

impl Default for Style {
    fn default() -> (r: Style)
        ensures
            r == Style::plain(),
    {
        Style::new()
    }
}

/// The colours the interface is drawn with; built once at start-up and
/// only read afterwards.
#[derive(Debug)]
pub struct Theme {
    pub selected_tab: Color,
    pub command_fg: Color,
    pub selection_bg: Color,
    pub selection_fg: Color,
    pub cmdbar_bg: Color,
    pub cmdbar_extra_lines_bg: Color,
    pub disabled_fg: Color,
    pub enabled_fg: Color,
    pub danger_fg: Color,
    pub line_break: String,
    pub block_title_focused: Color,
}

/// Theme settings read from a configuration file: each present field
/// replaces the default of the same name.
#[derive(Debug)]
pub struct ThemePatch {
    pub selected_tab: Option<Color>,
    pub command_fg: Option<Color>,
    pub selection_bg: Option<Color>,
    pub selection_fg: Option<Color>,
    pub cmdbar_bg: Option<Color>,
    pub cmdbar_extra_lines_bg: Option<Color>,
    pub disabled_fg: Option<Color>,
    pub enabled_fg: Option<Color>,
    pub danger_fg: Option<Color>,
    pub line_break: Option<String>,
    pub block_title_focused: Option<Color>,
}

pub open spec fn patched_color(old: Color, p: Option<Color>) -> Color {
    match p {
        Some(c) => c,
        None => old,
    }
}

fn patch_color(old: Color, p: Option<Color>) -> (r: Color)
    ensures
        r == patched_color(old, p),
{
    match p {
        Some(c) => c,
        None => old,
    }
}

/// The pilcrow that marks a line break.
pub const LINE_BREAK: &'static str = "\u{b6}";

impl Theme {
    /// The default palette, with the text colours the default sets.
    pub open spec fn is_default(&self) -> bool {
        &&& self.selected_tab == Color::Yellow
        &&& self.selection_bg == Color::Blue
        &&& self.selection_fg == Color::White
        &&& self.command_fg == Color::White
        &&& self.cmdbar_bg == Color::Blue
        &&& self.cmdbar_extra_lines_bg == Color::Blue
        &&& self.disabled_fg == Color::DarkGray
        &&& self.enabled_fg == Color::Blue
        &&& self.danger_fg == Color::Red
        &&& self.line_break@ == LINE_BREAK@
        &&& self.block_title_focused == Color::Reset
    }

    /// The position marker of a scroll bar.
    pub fn scroll_bar_pos(&self) -> (r: Style)
        ensures
            r == (Style { fg: Some(self.selection_bg), ..Style::plain() }),
    {
        Style::new().fg(self.selection_bg)
    }

    /// A block's border: plain when focused, dimmed otherwise.
    pub fn block(&self, focus: bool) -> (r: Style)
        ensures
            r == (if focus { Style::plain() } else { Style { fg: Some(self.disabled_fg), ..Style::plain() } }),
    {
        if focus {
            Style::new()
        } else {
            Style::new().fg(self.disabled_fg)
        }
    }

    /// A block's title: bold in the focused colour when focused, dimmed otherwise.
    pub fn title(&self, focused: bool) -> (r: Style)
        ensures
            r == (if focused {
                Style { fg: Some(self.block_title_focused), bg: None, bold: true }
            } else {
                Style { fg: Some(self.disabled_fg), ..Style::plain() }
            }),
    {
        if focused {
            Style::new().fg(self.block_title_focused).bold()
        } else {
            Style::new().fg(self.disabled_fg)
        }
    }

    pub open spec fn spec_text(&self, enabled: bool, selected: bool) -> Style {
        match (enabled, selected) {
            (false, false) => Style { fg: Some(self.disabled_fg), ..Style::plain() },
            (false, true) => Style { bg: Some(self.disabled_fg), ..Style::plain() },
            (true, false) => Style { fg: Some(self.enabled_fg), ..Style::plain() },
            (true, true) => Style { fg: Some(self.command_fg), ..Style::plain() },
        }
    }

    /// A tab label: as text, and when selected also bold in the selected-tab
    /// colour over the terminal's own background.
    pub fn tab(&self, enabled: bool, selected: bool) -> (r: Style)
        ensures
            r == (if selected {
                Style { fg: Some(self.selected_tab), bg: Some(Color::Reset), bold: true }
            } else {
                self.spec_text(enabled, selected)
            }),
    {
        if selected {
            self.text(enabled, selected).fg(self.selected_tab).bg(Color::Reset).bold()
        } else {
            self.text(enabled, selected)
        }
    }

    /// Ordinary text, by whether it is enabled and whether it is selected.
    pub fn text(&self, enabled: bool, selected: bool) -> (r: Style)
        ensures
            r == self.spec_text(enabled, selected),
    {
        if !enabled && !selected {
            Style::new().fg(self.disabled_fg)
        } else if !enabled {
            Style::new().bg(self.disabled_fg)
        } else if !selected {
            Style::new().fg(self.enabled_fg)
        } else {
            Style::new().fg(self.command_fg)
        }
    }

    /// Puts the selection colours on a style when it is selected.
    pub fn apply_select(&self, style: Style, selected: bool) -> (r: Style)
        ensures
            r == (if selected {
                Style { fg: Some(self.selection_fg), bg: Some(self.selection_bg), ..style }
            } else {
                style
            }),
    {
        if selected {
            style.bg(self.selection_bg).fg(self.selection_fg)
        } else {
            style
        }
    }

    /// Text that warns of something destructive.
    pub fn text_danger(&self) -> (r: Style)
        ensures
            r == (Style { fg: Some(self.danger_fg), ..Style::plain() }),
    {
        Style::new().fg(self.danger_fg)
    }

    /// The mark drawn where a line breaks.
    pub fn line_break(&self) -> (r: String)
        ensures
            r@ == self.line_break@,
    {
        self.line_break.clone()
    }

    /// A command bar line: its text colour by whether the command is
    /// enabled, its background by whether it is the first line.
    pub fn commandbar(&self, enabled: bool, line: usize) -> (r: Style)
        ensures
            r == (Style {
                fg: Some(if enabled { self.command_fg } else { self.disabled_fg }),
                bg: Some(if line == 0 { self.cmdbar_bg } else { self.cmdbar_extra_lines_bg }),
                bold: false,
            }),
    {
        let base = if enabled {
            Style::new().fg(self.command_fg)
        } else {
            Style::new().fg(self.disabled_fg)
        };
        base.bg(
            if line == 0 {
                self.cmdbar_bg
            } else {
                self.cmdbar_extra_lines_bg
            },
        )
    }

    /// A block that asks for the user's attention.
    pub fn attention_block() -> (r: Style)
        ensures
            r == (Style { fg: Some(Color::Yellow), ..Style::plain() }),
    {
        Style::new().fg(Color::Yellow)
    }

    /// The default theme with the configured settings, if any were read,
    /// laid over it.
    pub fn init(patch: Option<ThemePatch>) -> (r: Theme)
        ensures
            patch is None ==> r.is_default(),
            patch matches Some(p) ==> {
                &&& r.selected_tab == patched_color(Color::Yellow, p.selected_tab)
                &&& r.selection_bg == patched_color(Color::Blue, p.selection_bg)
                &&& r.selection_fg == patched_color(Color::White, p.selection_fg)
                &&& r.command_fg == patched_color(Color::White, p.command_fg)
                &&& r.cmdbar_bg == patched_color(Color::Blue, p.cmdbar_bg)
                &&& r.cmdbar_extra_lines_bg == patched_color(Color::Blue, p.cmdbar_extra_lines_bg)
                &&& r.disabled_fg == patched_color(Color::DarkGray, p.disabled_fg)
                &&& r.enabled_fg == patched_color(Color::Blue, p.enabled_fg)
                &&& r.danger_fg == patched_color(Color::Red, p.danger_fg)
                &&& r.line_break@ == match p.line_break {
                    Some(s) => s@,
                    None => LINE_BREAK@,
                }
                &&& r.block_title_focused == patched_color(Color::Reset, p.block_title_focused)
            },
    {
        let theme = Theme::default();
        match patch {
            None => theme,
            Some(p) => Theme {
                selected_tab: patch_color(theme.selected_tab, p.selected_tab),
                command_fg: patch_color(theme.command_fg, p.command_fg),
                selection_bg: patch_color(theme.selection_bg, p.selection_bg),
                selection_fg: patch_color(theme.selection_fg, p.selection_fg),
                cmdbar_bg: patch_color(theme.cmdbar_bg, p.cmdbar_bg),
                cmdbar_extra_lines_bg: patch_color(theme.cmdbar_extra_lines_bg, p.cmdbar_extra_lines_bg),
                disabled_fg: patch_color(theme.disabled_fg, p.disabled_fg),
                enabled_fg: patch_color(theme.enabled_fg, p.enabled_fg),
                danger_fg: patch_color(theme.danger_fg, p.danger_fg),
                line_break: match p.line_break {
                    Some(s) => s,
                    None => theme.line_break,
                },
                block_title_focused: patch_color(theme.block_title_focused, p.block_title_focused),
            },
        }
    }
}

impl Default for Theme {
    fn default() -> (r: Theme)
        ensures
            r.is_default(),
    {
        Theme {
            selected_tab: Color::Yellow,
            selection_bg: Color::Blue,
            selection_fg: Color::White,
            command_fg: Color::White,
            cmdbar_bg: Color::Blue,
            cmdbar_extra_lines_bg: Color::Blue,
            disabled_fg: Color::DarkGray,
            enabled_fg: Color::Blue,
            danger_fg: Color::Red,
            line_break: String::from_str(LINE_BREAK),
            block_title_focused: Color::Reset,
        }
    }
}

} // verus!
