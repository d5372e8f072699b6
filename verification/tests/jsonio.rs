use oss_insight::json::{decode_list, decode_value, encode_line};

#[test]
fn decode_then_encode_is_one_compact_line() {
    let v = decode_value(" {\n  \"a\": 1,\n  \"b\": [true, null]\n} ").unwrap();
    let line = encode_line(&v);
    assert!(!line.contains('\n'));
    assert_eq!(line, "{\"a\":1,\"b\":[true,null]}");
}

#[test]
fn printed_value_parses_back_to_itself() {
    let v = decode_value("{\"b\": [1, 2.5, \"x\\ny\"], \"a\": {\"k\": null}}").unwrap();
    let line = encode_line(&v);
    assert!(!line.contains('\n'));
    let v2 = decode_value(&line).unwrap();
    assert_eq!(v, v2);
    // and printing again gives the same line
    assert_eq!(encode_line(&v2), line);
}

#[test]
fn embedded_newlines_are_escaped_in_the_line() {
    let v = decode_value("\"line one\\nline two\"").unwrap();
    let line = encode_line(&v);
    assert!(!line.contains('\n'));
    assert_eq!(decode_value(&line).unwrap(), v);
}

#[test]
fn malformed_body_is_an_error() {
    let e = decode_value("{\"a\": ").unwrap_err();
    assert!(!e.message.is_empty());
    assert!(decode_value("").is_err());
    assert!(decode_list("{\"a\": 1}").is_err());
    assert!(decode_list("[1, 2").is_err());
}

#[test]
fn list_bodies_decode_in_order() {
    let items = decode_list("[{\"id\": 1}, {\"id\": 2}, 3]").unwrap();
    assert_eq!(items.len(), 3);
    assert_eq!(encode_line(&items[0]), "{\"id\":1}");
    assert_eq!(encode_line(&items[1]), "{\"id\":2}");
    assert_eq!(encode_line(&items[2]), "3");
}

#[test]
fn empty_list_ends_a_paginated_crawl() {
    let items = decode_list("[]").unwrap();
    assert!(items.is_empty());
}
