use proxy_wasm::query::{get_book_name, get_query_param};

#[test]
fn finds_the_value_of_a_parameter() {
    assert_eq!(get_query_param("name=Foo", "name"), Some("Foo".to_string()));
    assert_eq!(get_query_param("k=v1&name=Foo", "name"), Some("Foo".to_string()));
    assert_eq!(get_query_param("name=Foo&k=v1", "name"), Some("Foo".to_string()));
    assert_eq!(get_query_param("a=1&b=2&c=3", "b"), Some("2".to_string()));
}

#[test]
fn the_first_item_with_the_key_wins() {
    assert_eq!(get_query_param("name=Foo&name=Bar", "name"), Some("Foo".to_string()));
    assert_eq!(get_query_param("xname=No&name=Yes", "name"), Some("Yes".to_string()));
}

#[test]
fn a_value_may_be_empty_or_hold_an_equals_sign() {
    assert_eq!(get_query_param("name=", "name"), Some(String::new()));
    assert_eq!(get_query_param("name=&x=1", "name"), Some(String::new()));
    assert_eq!(get_query_param("name=a=b", "name"), Some("a=b".to_string()));
}

#[test]
fn a_missing_parameter_is_none() {
    assert_eq!(get_query_param("", "name"), None);
    assert_eq!(get_query_param("name", "name"), None);
    assert_eq!(get_query_param("nam=Foo", "name"), None);
    assert_eq!(get_query_param("names=Foo", "name"), None);
    assert_eq!(get_query_param("x=name=Foo", "name"), None);
    assert_eq!(get_query_param("&&&", "name"), None);
    assert_eq!(get_query_param("Name=Foo", "name"), None);
}

#[test]
fn an_empty_name_matches_an_item_that_begins_with_equals() {
    assert_eq!(get_query_param("=v", ""), Some("v".to_string()));
    assert_eq!(get_query_param("a=b&=v", ""), Some("v".to_string()));
    assert_eq!(get_query_param("a=b", ""), None);
}

#[test]
fn values_beyond_ascii_come_back_whole() {
    assert_eq!(get_query_param("name=\u{66f8}\u{7c4d}&x=1", "name"), Some("\u{66f8}\u{7c4d}".to_string()));
    assert_eq!(get_query_param("\u{e9}=1&name=caf\u{e9}", "name"), Some("caf\u{e9}".to_string()));
    assert_eq!(get_query_param("cl\u{e9}=\u{1f600}", "cl\u{e9}"), Some("\u{1f600}".to_string()));
}

#[test]
fn book_name_is_the_name_parameter_of_a_text_body() {
    assert_eq!(get_book_name(&Some(b"name=Foo".to_vec())), Some("Foo".to_string()));
    assert_eq!(get_book_name(&Some(b"k=v1&name=Foo".to_vec())), Some("Foo".to_string()));
    assert_eq!(get_book_name(&Some(b"title=Foo".to_vec())), None);
    assert_eq!(get_book_name(&Some(Vec::new())), None);
    assert_eq!(get_book_name(&None), None);
}

#[test]
fn book_name_of_a_body_that_is_not_text_is_none() {
    assert_eq!(get_book_name(&Some(vec![b'n', b'a', b'm', b'e', b'=', 0xff])), None);
    assert_eq!(get_book_name(&Some(vec![0xc3, b'&', b'n', b'a', b'm', b'e', b'=', b'F'])), None);
}
