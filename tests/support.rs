use roc_migrate::casing::snakify_camel_ident;
use roc_migrate::dispatch::is_static_method;
use roc_migrate::position::IndentablePosition;

fn cs(s: &str) -> Vec<char> {
    s.chars().collect()
}

#[test]
fn snakify_converts_camel_case() {
    let r: String = snakify_camel_ident(&cs("fooBarBaz")).iter().collect();
    assert_eq!(r, "foo_bar_baz");
    let r: String = snakify_camel_ident(&cs("Foo")).iter().collect();
    assert_eq!(r, "foo");
    let r: String = snakify_camel_ident(&cs("already_snake")).iter().collect();
    assert_eq!(r, "already_snake");
    let r: String = snakify_camel_ident(&cs("")).iter().collect();
    assert_eq!(r, "");
}

#[test]
fn static_methods_are_recognized() {
    assert!(is_static_method(&cs("List"), &cs("map")));
    assert!(is_static_method(&cs("List"), &cs("len")));
    assert!(is_static_method(&cs("List"), &cs("walk!")));
    assert!(is_static_method(&cs("Str"), &cs("trim")));
    assert!(is_static_method(&cs("Dict"), &cs("insert")));
}

#[test]
fn other_names_are_not_static_methods() {
    assert!(!is_static_method(&cs(""), &cs("map")));
    assert!(!is_static_method(&cs("Num"), &cs("map")));
    assert!(!is_static_method(&cs("Str"), &cs("map")));
    assert!(!is_static_method(&cs("Dict"), &cs("sum")));
    assert!(!is_static_method(&cs("List"), &cs("toStr")));
}

#[test]
fn position_starts_at_line_one() {
    let p = IndentablePosition::new();
    assert_eq!(p, IndentablePosition { line: 1, column: 1, indent_col: 1, is_indenting: true });
    assert_eq!(IndentablePosition::default(), p);
    assert_eq!(p.position(), p);
}

#[test]
fn position_tracks_indentation() {
    let mut p = IndentablePosition::new();
    p.update_range(&cs("ab\n   cd"));
    assert_eq!(p.line, 2);
    assert_eq!(p.column, 6);
    assert_eq!(p.indent_col, 4);
    assert!(!p.is_indenting);
}

#[test]
fn blank_line_is_not_indented() {
    let mut p = IndentablePosition::new();
    p.update_range(&cs("x\n    "));
    assert_eq!(p.column, 5);
    assert_eq!(p.indent_col, 1);
    assert!(p.is_indenting);
    p.update('\n');
    assert_eq!(p.line, 3);
    assert_eq!(p.column, 1);
}

#[test]
fn range_at_last_line_without_newline() {
    let mut p = IndentablePosition { line: u32::MAX, column: 1, indent_col: 1, is_indenting: true };
    p.update_range(&cs("ab"));
    assert_eq!(p.line, u32::MAX);
    assert_eq!(p.column, 3);
    assert_eq!(p.indent_col, 1);
}
