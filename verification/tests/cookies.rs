use wry_android::cookies::{keep_present, parse_cookies};

#[test]
fn cookies_are_the_pieces_that_parse() {
    let cookies = parse_cookies("a=1; junk; b=2");
    assert_eq!(cookies.len(), 2);
    assert_eq!(cookies[0].name_value(), ("a", "1"));
    assert_eq!(cookies[1].name_value(), ("b", "2"));
}

#[test]
fn no_text_holds_no_cookies() {
    assert_eq!(parse_cookies("").len(), 0);
    assert_eq!(parse_cookies("; ").len(), 0);
}

#[test]
fn a_semicolon_without_a_space_does_not_part_cookies() {
    let cookies = parse_cookies("a=1;b=2");
    assert_eq!(cookies.len(), 1);
    assert_eq!(cookies[0].name_value(), ("a", "1"));
}

#[test]
fn what_is_missing_is_left_out() {
    assert_eq!(keep_present(vec![None, Some(3), None, Some(1)]), vec![3, 1]);
    assert_eq!(keep_present(Vec::<Option<u8>>::new()), Vec::<u8>::new());
}
