use workload_driver::content::{printable_char, printable_content, PRINTABLE_MAX, PRINTABLE_MIN};

#[test]
fn printable_range_is_space_to_tilde() {
    assert_eq!(PRINTABLE_MIN, 32);
    assert_eq!(PRINTABLE_MAX, 126);
    assert_eq!(PRINTABLE_MIN as char, ' ');
    assert_eq!(PRINTABLE_MAX as char, '~');
}

#[test]
fn content_of_size_zero_is_empty() {
    assert_eq!(printable_content(0), "");
}

#[test]
fn content_of_size_one_is_one_printable_character() {
    let content = printable_content(1);
    assert_eq!(content.chars().count(), 1);
    let code = content.chars().next().unwrap() as u32;
    assert!((32..=126).contains(&code));
}

#[test]
fn content_has_exactly_the_size_asked_for() {
    for size in [2usize, 10, 20, 1024, 10240] {
        let content = printable_content(size);
        assert_eq!(content.chars().count(), size);
        assert_eq!(content.len(), size);
    }
}

#[test]
fn content_is_printable_ascii_throughout() {
    let content = printable_content(102400);
    assert!(content.chars().all(|c| (32..=126).contains(&(c as u32))));
    assert!(!content.contains('\n'));
    assert!(!content.contains('\u{7f}'));
}

#[test]
fn content_is_drawn_and_not_constant() {
    let content = printable_content(1024);
    let first = content.chars().next().unwrap();
    assert!(content.chars().any(|c| c != first));
}

#[test]
fn content_differs_between_two_draws() {
    assert_ne!(printable_content(1024), printable_content(1024));
}

#[test]
fn content_reaches_both_ends_of_the_range() {
    let content = printable_content(102400);
    assert!(content.contains(' '));
    assert!(content.contains('~'));
}

#[test]
fn printable_char_maps_codes_in_range_to_their_character() {
    assert_eq!(printable_char(32), Some(' '));
    assert_eq!(printable_char(65), Some('A'));
    assert_eq!(printable_char(97), Some('a'));
    assert_eq!(printable_char(126), Some('~'));
}

#[test]
fn printable_char_has_none_outside_the_range() {
    assert_eq!(printable_char(31), None);
    assert_eq!(printable_char(127), None);
    assert_eq!(printable_char(0), None);
    assert_eq!(printable_char(-1), None);
    assert_eq!(printable_char(256 + 65), None);
    assert_eq!(printable_char(i32::MAX), None);
    assert_eq!(printable_char(i32::MIN), None);
}
