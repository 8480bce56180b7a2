use aeiou::classify::{classify_event, classify_span, EventKind, SpanKind};
use aeiou::style::Color;

#[test]
fn span_table_exact_matches() {
    assert_eq!(classify_span("runtime.spawn", "anything"), SpanKind::Spawn);
    assert_eq!(classify_span("task", "tokio::task"), SpanKind::Spawn);
    assert_eq!(classify_span("runtime.resource", "x"), SpanKind::Resource);
    assert_eq!(classify_span("runtime.resource.async_op", "x"), SpanKind::AsyncOp);
    assert_eq!(classify_span("runtime.resource.async_op.poll", "x"), SpanKind::AsyncOpPoll);
}

#[test]
fn span_no_prefix_or_substring_matching() {
    assert_eq!(classify_span("runtime.spaw", "x"), SpanKind::Unknown);
    assert_eq!(classify_span("runtime.spawn2", "x"), SpanKind::Unknown);
    assert_eq!(classify_span("xruntime.spawn", "x"), SpanKind::Unknown);
    assert_eq!(classify_span("runtime", "x"), SpanKind::Unknown);
    assert_eq!(classify_span("runtime.resource.async_op.pol", "x"), SpanKind::Unknown);
    assert_eq!(classify_span("", ""), SpanKind::Unknown);
    assert_eq!(classify_span("my.span", "my_target"), SpanKind::Unknown);
}

#[test]
fn task_spawn_needs_exact_target() {
    assert_eq!(classify_span("task", "tokio::tasks"), SpanKind::Unknown);
    assert_eq!(classify_span("task", ""), SpanKind::Unknown);
    assert_eq!(classify_span("tasks", "tokio::task"), SpanKind::Unknown);
}

#[test]
fn event_table_exact_matches() {
    assert_eq!(classify_event("runtime::waker"), EventKind::Waker);
    assert_eq!(classify_event("tokio::task::waker"), EventKind::Waker);
    assert_eq!(classify_event("runtime::resource::poll_op"), EventKind::PollOp);
    assert_eq!(classify_event("runtime::resource::state_update"), EventKind::ResourceStateUpdate);
    assert_eq!(
        classify_event("runtime::resource::async_op::state_update"),
        EventKind::AsyncOpUpdate
    );
}

#[test]
fn event_no_prefix_or_substring_matching() {
    assert_eq!(classify_event("runtime::wake"), EventKind::Unknown);
    assert_eq!(classify_event("runtime::waker2"), EventKind::Unknown);
    assert_eq!(classify_event("runtime::resource"), EventKind::Unknown);
    assert_eq!(classify_event(""), EventKind::Unknown);
    assert_eq!(classify_event("my_target"), EventKind::Unknown);
}

#[test]
fn span_color_pairs_match_table() {
    assert!(matches!(
        SpanKind::Spawn.get_colors(),
        (Color::Rgb(0x48, 0x9E, 0x6C), Color::Rgb(0x5A, 0xBA, 0x84))
    ));
    assert!(matches!(
        SpanKind::Resource.get_colors(),
        (Color::Rgb(0xBA, 0x5A, 0x57), Color::Rgb(0xDF, 0x58, 0x53))
    ));
    assert!(matches!(
        SpanKind::AsyncOp.get_colors(),
        (Color::Rgb(0x5C, 0x8D, 0xCE), Color::Rgb(0x50, 0x8E, 0xE3))
    ));
    assert!(matches!(
        SpanKind::AsyncOpPoll.get_colors(),
        (Color::Rgb(0xE5, 0xE4, 0x4D), Color::Rgb(0xF5, 0xF4, 0x66))
    ));
    assert!(matches!(SpanKind::Unknown.get_colors(), (Color::White, Color::White)));
}

#[test]
fn event_color_pairs_match_table() {
    assert!(matches!(
        EventKind::Waker.get_colors(),
        (Color::Rgb(0x9D, 0x4E, 0xDD), Color::Rgb(0xC7, 0x7D, 0xFF))
    ));
    assert!(matches!(
        EventKind::PollOp.get_colors(),
        (Color::Rgb(0xFF, 0xBF, 0x69), Color::Rgb(0xFF, 0x9F, 0x1C))
    ));
    assert!(matches!(
        EventKind::ResourceStateUpdate.get_colors(),
        (Color::Rgb(0xC9, 0x18, 0x4A), Color::Rgb(0xFF, 0x4D, 0x6D))
    ));
    assert!(matches!(
        EventKind::AsyncOpUpdate.get_colors(),
        (Color::Rgb(0x9C, 0xEA, 0xEF), Color::Rgb(0x68, 0xD8, 0xD6))
    ));
    assert!(matches!(EventKind::Unknown.get_colors(), (Color::White, Color::White)));
}

#[test]
fn lifecycle_kind_uses_span_colors() {
    assert!(matches!(
        EventKind::SpanEvent(SpanKind::Spawn).get_colors(),
        (Color::Rgb(0x48, 0x9E, 0x6C), Color::Rgb(0x5A, 0xBA, 0x84))
    ));
    assert!(matches!(
        EventKind::SpanEvent(SpanKind::Unknown).get_colors(),
        (Color::White, Color::White)
    ));
}
