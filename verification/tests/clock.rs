use aeiou::clock::now_timestamp;
use aeiou::event::Level;
use aeiou::fields::FmtFields;
use aeiou::layer::Layer;

#[test]
fn now_fits_the_fixed_layout() {
    let t = now_timestamp();
    assert!(t.year <= 9999);
    assert!((1..=12).contains(&t.month));
    assert!((1..=31).contains(&t.day));
    assert!(t.hour <= 23);
    assert!(t.minute <= 59);
    assert!(t.second <= 59);
    assert!(t.micros <= 999999);
}

#[test]
fn now_renders_as_a_well_formed_line() {
    colored::control::set_override(false);
    let layer = Layer::new();
    let line = layer.on_event(now_timestamp(), Level::Info, "t".to_string(), FmtFields::new_event(), &vec![]);
    // fixed layout: 4-2-2 date, literal T, 2:2:2 time, dot, 6 digits, Z
    let (stamp, rest) = line.split_at(27);
    assert_eq!(&stamp[4..5], "-");
    assert_eq!(&stamp[7..8], "-");
    assert_eq!(&stamp[10..11], "T");
    assert_eq!(&stamp[13..14], ":");
    assert_eq!(&stamp[16..17], ":");
    assert_eq!(&stamp[19..20], ".");
    assert_eq!(&stamp[26..27], "Z");
    assert!(stamp[20..26].chars().all(|c| c.is_ascii_digit()));
    assert_eq!(rest, "  INFO t: ");
}
