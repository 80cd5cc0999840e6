use http::{HeaderMap, HeaderValue};
use wry_android::headers::{read_headers, value_or_empty};

#[test]
fn headers_come_with_their_texts() {
    let mut headers = HeaderMap::new();
    headers.insert("X-First", HeaderValue::from_static("one two"));
    assert_eq!(read_headers(&headers), vec![("x-first".to_string(), "one two".to_string())]);
}

#[test]
fn a_name_comes_once_for_each_of_its_values() {
    let mut headers = HeaderMap::new();
    headers.append("a", HeaderValue::from_static("1"));
    headers.append("a", HeaderValue::from_static("2"));
    headers.append("b", HeaderValue::from_static("3"));
    let mut read = read_headers(&headers);
    read.sort();
    assert_eq!(
        read,
        vec![
            ("a".to_string(), "1".to_string()),
            ("a".to_string(), "2".to_string()),
            ("b".to_string(), "3".to_string()),
        ]
    );
}

#[test]
fn values_that_are_no_visible_text_read_as_empty() {
    let value = HeaderValue::from_bytes(b"caf\xc3\xa9").unwrap();
    assert_eq!(value_or_empty(&value), "");
    let tab = HeaderValue::from_bytes(b"a\tb ~").unwrap();
    assert_eq!(value_or_empty(&tab), "a\tb ~");
    let empty = HeaderValue::from_static("");
    assert_eq!(value_or_empty(&empty), "");
}

#[test]
fn no_headers_give_no_pairs() {
    assert_eq!(read_headers(&HeaderMap::new()), Vec::<(String, String)>::new());
}
