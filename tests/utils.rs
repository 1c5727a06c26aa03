use logram::text::{decimal_string, join, starts_with, trim_end_char, trim_start_char};
use logram::utils::{crop_ansi_codes, option_zip, with_last};

#[test]
fn crop_ansi_codes_main() {
    let red_hw = "\x1b[31m Hello World";

    assert_eq!(crop_ansi_codes(red_hw), " Hello World")
}

#[test]
fn crop_ansi_codes_keeps_plain_text() {
    assert_eq!(crop_ansi_codes("plain"), "plain");
    assert_eq!(crop_ansi_codes("a\x1b[1;32mb\x1b[0mc"), "abc");
}

#[test]
fn option_zip_main() {
    assert_eq!(option_zip::<(), ()>(None, None), None);
    assert_eq!(option_zip::<u8, u8>(Some(255), None), None);
    assert_eq!(option_zip::<u8, u8>(None, Some(255)), None);
    assert_eq!(
        option_zip::<bool, u8>(Some(true), Some(255)),
        Some((true, 255))
    );
}

#[test]
fn with_last_marks_only_the_last() {
    assert_eq!(with_last(vec![1, 2, 3]), vec![(1, false), (2, false), (3, true)]);
    assert_eq!(with_last(Vec::<u8>::new()), Vec::<(u8, bool)>::new());
}

#[test]
fn decimal_of_integers() {
    assert_eq!(decimal_string(0), "0");
    assert_eq!(decimal_string(42), "42");
    assert_eq!(decimal_string(-7), "-7");
    assert_eq!(decimal_string(i64::MIN), "-9223372036854775808");
    assert_eq!(decimal_string(i64::MAX), "9223372036854775807");
}

#[test]
fn trims_and_joins() {
    assert_eq!(trim_end_char("line\n\n", '\n'), "line");
    assert_eq!(trim_end_char("\n", '\n'), "");
    assert_eq!(trim_start_char("//name", '/'), "name");
    assert_eq!(join(&vec![String::from("a"), String::from("b")], ", "), "a, b");
    assert!(starts_with("hyper::client", "hyper"));
    assert!(!starts_with("hy", "hyper"));
}
