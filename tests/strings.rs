use std::rc::Rc;

use db_manager::keys::KeysList;
use db_manager::strings::{
    cmd_splitter, copy_success, ellipsis_trim_start, msg_title_error, msg_title_info, tab_db_connections,
    tab_db_databases, tab_db_tables_and_schema, tab_db_types, tab_divider, with_front_indicator,
};

#[test]
fn labels() {
    let keys = Rc::new(KeysList::default());
    assert_eq!(tab_db_types(&keys), "DB Types");
    assert_eq!(tab_db_connections(&keys), "DB Connections");
    assert_eq!(tab_db_databases(&keys), "Database");
    assert_eq!(tab_db_tables_and_schema(&keys), "Tables & Schemas");
    assert_eq!(tab_divider(&keys), " | ");
    assert_eq!(cmd_splitter(&keys), " ");
    assert_eq!(msg_title_error(&keys), "Error");
    assert_eq!(msg_title_info(&keys), "Info");
}

#[test]
fn copy_notice() {
    assert_eq!(copy_success("abc"), "Copied Text \"abc\"");
    assert_eq!(copy_success(""), "Copied Text \"\"");
}

#[test]
fn front_indicator() {
    assert_eq!(with_front_indicator("abc"), "[\u{2026}]abc");
}

#[test]
fn trim_keeps_text_that_fits() {
    assert_eq!(ellipsis_trim_start("hello", 5), "hello");
    assert_eq!(ellipsis_trim_start("hello", 10), "hello");
    assert_eq!(ellipsis_trim_start("", 0), "");
}

#[test]
fn trim_cuts_the_front() {
    assert_eq!(ellipsis_trim_start("hello world", 8), "[\u{2026}]world");
    assert_eq!(ellipsis_trim_start("abcdef", 4), "[\u{2026}]f");
    assert_eq!(ellipsis_trim_start("abcdef", 2), "[\u{2026}]");
}

#[test]
fn trim_counts_wide_characters() {
    // each of these takes two columns
    assert_eq!(ellipsis_trim_start("\u{4f60}\u{597d}\u{4e16}\u{754c}", 6), "[\u{2026}]\u{754c}");
    assert_eq!(ellipsis_trim_start("\u{4f60}\u{597d}", 4), "\u{4f60}\u{597d}");
}
