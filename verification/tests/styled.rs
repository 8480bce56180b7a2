//! With colorization forced on, the styling capability must wrap text in
//! ANSI escapes, and classification must drive which color pair is used.

use aeiou::event::{Level, Timestamp};
use aeiou::fields::FmtFields;
use aeiou::layer::Layer;

fn ts() -> Timestamp {
    Timestamp { year: 2024, month: 6, day: 1, hour: 12, minute: 0, second: 0, micros: 0 }
}

#[test]
fn styling_on_wraps_output_in_escapes() {
    colored::control::set_override(true);
    let mut l = Layer::new();
    let line = l.on_new_span(ts(), 1, "my.span", "t", Level::Trace, FmtFields::new_span(), &vec![1]);
    assert!(line.contains('\u{1b}'));
    assert!(line.contains("\u{1b}[0m"));
    let scope = l.formatted_scope(&vec![1]);
    assert_ne!(scope, "my.span[1]{} ");
}

#[test]
fn spawn_span_never_uses_the_unknown_colors() {
    colored::control::set_override(true);
    // same name, same id, same fields: only the target separates the spawn
    // classification from the unknown one
    let mut spawn_layer = Layer::new();
    spawn_layer.on_new_span(ts(), 4, "task", "tokio::task", Level::Trace, FmtFields::new_span(), &vec![4]);
    let spawn_scope = spawn_layer.formatted_scope(&vec![4]);

    let mut unknown_layer = Layer::new();
    unknown_layer.on_new_span(ts(), 4, "task", "other", Level::Trace, FmtFields::new_span(), &vec![4]);
    let unknown_scope = unknown_layer.formatted_scope(&vec![4]);

    // the unknown kind is colored terminal white; the spawn kind is not
    assert!(unknown_scope.contains("\u{1b}[37m"));
    assert!(!spawn_scope.contains("\u{1b}[37m"));
    assert_ne!(spawn_scope, unknown_scope);
}

#[test]
fn lifecycle_body_uses_the_span_colors() {
    colored::control::set_override(true);
    let mut spawn_layer = Layer::new();
    let spawn_line = spawn_layer.on_new_span(
        ts(),
        5,
        "task",
        "tokio::task",
        Level::Trace,
        FmtFields::new_span(),
        &vec![5],
    );
    let mut unknown_layer = Layer::new();
    let unknown_line = unknown_layer.on_new_span(
        ts(),
        5,
        "task",
        "other",
        Level::Trace,
        FmtFields::new_span(),
        &vec![5],
    );
    // both end in a styled "new", but under different color pairs
    assert_ne!(spawn_line, unknown_line);
    assert!(spawn_line.contains('\u{1b}'));
}
