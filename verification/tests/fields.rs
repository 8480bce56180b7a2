use aeiou::fields::FmtFields;

fn plain() {
    colored::control::set_override(false);
}

#[test]
fn pairs_joined_in_insertion_order() {
    plain();
    let mut f = FmtFields::new_event();
    f.record("a".to_string(), "1".to_string());
    f.record("b".to_string(), "2".to_string());
    f.record("c".to_string(), "3".to_string());
    assert_eq!(f.formatted_updated(), "a=1, b=2, c=3");
}

#[test]
fn no_fields_renders_empty() {
    plain();
    let mut f = FmtFields::new_event();
    assert_eq!(f.formatted_updated(), "");
    assert_eq!(f.formatted(), "");
}

#[test]
fn single_pair_has_no_separator() {
    plain();
    let mut f = FmtFields::new_event();
    f.record("only".to_string(), "one".to_string());
    assert_eq!(f.formatted_updated(), "only=one");
}

#[test]
fn message_is_appended_not_rendered_as_pair() {
    plain();
    let mut f = FmtFields::new_event();
    f.record("field".to_string(), "value".to_string());
    f.record("message".to_string(), "my message".to_string());
    let s = f.formatted_updated().to_string();
    assert_eq!(s, "field=value my message");
    assert!(!s.contains("message="));
}

#[test]
fn sole_message_stands_alone_without_space() {
    plain();
    let mut f = FmtFields::new_event();
    f.record("message".to_string(), "hello".to_string());
    assert_eq!(f.formatted_updated(), "hello");
}

#[test]
fn last_message_wins() {
    plain();
    let mut f = FmtFields::new_event();
    f.record("message".to_string(), "first".to_string());
    f.record("x".to_string(), "1".to_string());
    f.record("message".to_string(), "second".to_string());
    assert_eq!(f.formatted_updated(), "x=1 second");
}

#[test]
fn span_mode_formats_like_event_mode() {
    plain();
    let mut f = FmtFields::new_span();
    f.record("kind".to_string(), "task".to_string());
    f.record("message".to_string(), "note".to_string());
    assert_eq!(f.formatted_updated(), "kind=task note");
}

#[test]
fn seeded_message_is_rendered_immediately() {
    plain();
    let f = FmtFields::new_message("enter".to_string());
    assert_eq!(f.formatted(), "enter");
}

#[test]
fn formatted_does_not_recompute() {
    plain();
    let mut f = FmtFields::new_event();
    f.record("a".to_string(), "1".to_string());
    // the cache is stale until formatted_updated is called
    assert_eq!(f.formatted(), "");
    assert_eq!(f.formatted_updated(), "a=1");
    // and up to date afterwards
    assert_eq!(f.formatted(), "a=1");
}

#[test]
fn repeated_formatted_updated_is_stable() {
    plain();
    let mut f = FmtFields::new_event();
    f.record("a".to_string(), "1".to_string());
    f.record("message".to_string(), "m".to_string());
    let first = f.formatted_updated().to_string();
    let second = f.formatted_updated().to_string();
    assert_eq!(first, second);
    assert_eq!(first, "a=1 m");
}

#[test]
fn record_after_format_refreshes() {
    plain();
    let mut f = FmtFields::new_event();
    f.record("a".to_string(), "1".to_string());
    assert_eq!(f.formatted_updated(), "a=1");
    f.record("b".to_string(), "2".to_string());
    assert_eq!(f.formatted_updated(), "a=1, b=2");
}

#[test]
fn empty_names_and_values_still_render() {
    plain();
    let mut f = FmtFields::new_event();
    f.record("".to_string(), "".to_string());
    assert_eq!(f.formatted_updated(), "=");
}
