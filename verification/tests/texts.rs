use wry_android::color::packed_argb;
use wry_android::counter::Counter;
use wry_android::text::{decimal_text, replace_char, split, text_before};

#[test]
fn text_is_cut_at_every_separator() {
    assert_eq!(split("a=1; b=2; c", "; "), vec!["a=1", "b=2", "c"]);
    assert_eq!(split("", "; "), vec![""]);
    assert_eq!(split("; ", "; "), vec!["", ""]);
    assert_eq!(split("a;b", "; "), vec!["a;b"]);
    assert_eq!(split("aaa", "aa"), vec!["", "a"]);
}

#[test]
fn split_agrees_with_std() {
    for text in ["a; b; c", "; ; ", ";; ;", "x", "é; ü", ""] {
        let expected: Vec<String> = text.split("; ").map(|s| s.to_string()).collect();
        assert_eq!(split(text, "; "), expected);
    }
}

#[test]
fn pieces_join_to_the_text_and_hold_no_separator() {
    let text = "k=v; ; w; é";
    let pieces = split(text, "; ");
    assert_eq!(pieces.join("; "), text);
    for piece in pieces.iter() {
        assert!(!piece.contains("; "));
    }
}

#[test]
fn protocol_stands_before_the_first_mark() {
    assert_eq!(text_before("wry://a://b", "://"), Some("wry".to_string()));
    assert_eq!(text_before("about:blank", "://"), None);
    assert_eq!(text_before("://x", "://"), Some(String::new()));
}

#[test]
fn class_names_get_dots() {
    assert_eq!(replace_char("com/app/Ipc", '/', '.'), "com.app.Ipc");
    assert_eq!(replace_char("Ipc", '/', '.'), "Ipc");
    assert_eq!(replace_char("é/ü", '/', '.'), "é.ü");
}

#[test]
fn numbers_are_written_in_decimal() {
    assert_eq!(decimal_text(0), "0");
    assert_eq!(decimal_text(7), "7");
    assert_eq!(decimal_text(10), "10");
    assert_eq!(decimal_text(4294967295), "4294967295");
}

#[test]
fn colours_are_packed_alpha_first() {
    assert_eq!(packed_argb((1, 2, 3, 4)), 0x04010203);
    assert_eq!(packed_argb((0, 0, 0, 0)), 0);
    assert_eq!(packed_argb((255, 255, 255, 255)), -1);
    assert_eq!(packed_argb((0, 0, 0, 128)), i32::MIN);
    assert_eq!(packed_argb((0x11, 0x22, 0x33, 0xff)), 0xff112233u32 as i32);
}

#[test]
fn different_colours_have_different_numbers() {
    let colours = [(1, 0, 0, 0), (0, 1, 0, 0), (0, 0, 1, 0), (0, 0, 0, 1), (0, 0, 0, 255)];
    for a in colours.iter() {
        for b in colours.iter() {
            assert_eq!(a == b, packed_argb(*a) == packed_argb(*b));
        }
    }
}

#[test]
fn counter_counts_up_and_starts_again() {
    let mut counter = Counter::new(1);
    assert_eq!(counter.next(), 1);
    assert_eq!(counter.next(), 2);
    let mut last = Counter::new(u32::MAX);
    assert_eq!(last.next(), u32::MAX);
    assert_eq!(last.next(), 0);
    assert_eq!(last.next(), 1);
}
