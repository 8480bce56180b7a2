use aeiou::classify::SpanKind;
use aeiou::fields::FmtFields;
use aeiou::span::FmtSpan;

fn plain() {
    colored::control::set_override(false);
}

#[test]
fn span_renders_name_id_and_empty_fields() {
    plain();
    let span = FmtSpan::new(1, "my.span", "my_target", FmtFields::new_span());
    assert_eq!(span.formatted(), "my.span[1]{}");
}

#[test]
fn span_renders_fields_from_their_cache() {
    plain();
    let mut fields = FmtFields::new_span();
    fields.record("kind".to_string(), "task".to_string());
    fields.record("task.id".to_string(), "18".to_string());
    fields.format();
    let span = FmtSpan::new(42, "runtime.spawn", "x", fields);
    assert_eq!(span.formatted(), "runtime.spawn[42]{kind=task, task.id=18}");
}

#[test]
fn span_id_renders_in_plain_decimal() {
    plain();
    let span = FmtSpan::new(274877906945, "runtime.resource", "x", FmtFields::new_span());
    assert_eq!(span.formatted(), "runtime.resource[274877906945]{}");
    let span = FmtSpan::new(u64::MAX, "s", "t", FmtFields::new_span());
    assert_eq!(span.formatted(), "s[18446744073709551615]{}");
    let span = FmtSpan::new(0, "s", "t", FmtFields::new_span());
    assert_eq!(span.formatted(), "s[0]{}");
}

#[test]
fn span_keeps_its_classification() {
    plain();
    let span = FmtSpan::new(5, "runtime.spawn", "whatever", FmtFields::new_span());
    assert_eq!(span.kind(), SpanKind::Spawn);
    let span = FmtSpan::new(6, "my.span", "whatever", FmtFields::new_span());
    assert_eq!(span.kind(), SpanKind::Unknown);
}
