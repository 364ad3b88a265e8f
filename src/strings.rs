use std::rc::Rc;
use unicode_truncate::UnicodeTruncateStr;
use unicode_width::UnicodeWidthStr;
use vstd::prelude::*;

use crate::keys::KeysList;

verus! {

/// The key bindings, shared by every component that labels a command.
pub type SharedKeyConfig = Rc<KeysList>;

pub const DB_TYPES: &'static str = "DB Types";

pub const DB_CONNECTIONS: &'static str = "DB Connections";

pub const DB_DATABASES: &'static str = "Database";

pub const DB_TABLES_AND_SCHEMAS: &'static str = "Tables & Schemas";

pub const POPUP_SUCCESS_COPY: &'static str = "Copied Text";

/// The horizontal ellipsis that marks text cut off at the front.
pub const ELLIPSIS: char = '\u{2026}';

/// How many columns the front marker `[…]` takes.
pub const FRONT_INDICATOR_WIDTH: usize = 3;

/// The display width in terminal columns that unicode-width assigns to a string.
pub uninterp spec fn display_width(s: Seq<char>) -> usize;

/// The longest suffix of a string whose display width fits in the given width,
/// as unicode-truncate computes it.
pub uninterp spec fn truncated_start(s: Seq<char>, width: usize) -> Seq<char>;

/// Relies on `UnicodeWidthStr::width` of unicode-width: the number of columns
/// the string takes, a function of its characters alone.
#[verifier::external_body]
fn str_width(s: &str) -> (r: usize)
    ensures
        r == display_width(s@),
{
    s.width()
}

/// Relies on `UnicodeTruncateStr::unicode_truncate_start` of unicode-truncate:
/// it removes characters from the start until the rest fits in `width`
/// columns and returns that rest, a suffix of the string.
#[verifier::external_body]
fn truncate_start(s: &str, width: usize) -> (r: String)
    ensures
        r@ == truncated_start(s@, width),
        r@.len() <= s@.len(),
        r@ == s@.subrange(s@.len() - r@.len(), s@.len() as int),
{
    s.unicode_truncate_start(width).0.to_string()
}

pub fn tab_db_types(_key_config: &SharedKeyConfig) -> (r: String)
    ensures
        r@ == DB_TYPES@,
{
    String::from_str(DB_TYPES)
}

pub fn tab_db_connections(_key_config: &SharedKeyConfig) -> (r: String)
    ensures
        r@ == DB_CONNECTIONS@,
{
    String::from_str(DB_CONNECTIONS)
}

pub fn tab_db_databases(_key_config: &SharedKeyConfig) -> (r: String)
    ensures
        r@ == DB_DATABASES@,
{
    String::from_str(DB_DATABASES)
}

pub fn tab_db_tables_and_schema(_key_config: &SharedKeyConfig) -> (r: String)
    ensures
        r@ == DB_TABLES_AND_SCHEMAS@,
{
    String::from_str(DB_TABLES_AND_SCHEMAS)
}

pub fn tab_divider(_key_config: &SharedKeyConfig) -> (r: String)
    ensures
        r@ == " | "@,
{
    String::from_str(" | ")
}

pub fn cmd_splitter(_key_config: &SharedKeyConfig) -> (r: String)
    ensures
        r@ == " "@,
{
    String::from_str(" ")
}

pub fn msg_title_error(_key_config: &SharedKeyConfig) -> (r: String)
    ensures
        r@ == "Error"@,
{
    String::from_str("Error")
}

pub fn msg_title_info(_key_config: &SharedKeyConfig) -> (r: String)
    ensures
        r@ == "Info"@,
{
    String::from_str("Info")
}

/// The notice shown after text was copied: `Copied Text "<s>"`.
pub fn copy_success(s: &str) -> (r: String)
    ensures
        r@ == POPUP_SUCCESS_COPY@ + " \""@ + s@ + "\""@,
{
    let r = String::from_str(POPUP_SUCCESS_COPY);
    let r = r.concat(" \"");
    let r = r.concat(s);
    r.concat("\"")
}

/// The front marker `[…]` put before text that lost its start.
pub open spec fn front_indicator() -> Seq<char> {
    seq!['[', ELLIPSIS, ']']
}

/// Prefixes the kept tail of a shortened text with the marker `[…]`.
pub fn with_front_indicator(tail: &str) -> (r: String)
    ensures
        r@ == front_indicator() + tail@,
{
    let r = String::from_str("[\u{2026}]");
    proof {
        reveal_strlit("[\u{2026}]");
        assert("[\u{2026}]"@ =~= front_indicator());
    }
    r.concat(tail)
}

/// Fits `s` into `width` columns: unchanged when it fits, otherwise the
/// marker `[…]` followed by the longest tail of `s` that fits in the
/// columns left after the marker.
pub fn ellipsis_trim_start(s: &str, width: usize) -> (r: String)
    ensures
        display_width(s@) <= width ==> r@ == s@,
        display_width(s@) > width ==> {
            let tail = truncated_start(
                s@,
                if width >= FRONT_INDICATOR_WIDTH { (width - FRONT_INDICATOR_WIDTH) as usize } else { 0 },
            );
            &&& r@ == front_indicator() + tail
            &&& tail.len() <= s@.len()
            &&& tail == s@.subrange(s@.len() - tail.len(), s@.len() as int)
        },
{
    if str_width(s) <= width {
        String::from_str(s)
    } else {
        let room = width.saturating_sub(FRONT_INDICATOR_WIDTH);
        let tail = truncate_start(s, room);
        with_front_indicator(tail.as_str())
    }
}

} // verus!
