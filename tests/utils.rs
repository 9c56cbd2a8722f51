use suika::utils::{expect_sequence, parse_query_string, parse_url, skip_whitespace};

#[test]
fn test_skip_whitespace() {
    let input = "   abc";
    let mut chars = input.chars();
    let mut current_char = chars.next();
    skip_whitespace(&mut chars, &mut current_char);
    assert_eq!(current_char, Some('a'));
}

#[test]
fn test_expect_sequence() {
    let input = "true";
    let mut chars = input.chars();
    let mut current_char = chars.next();
    assert!(expect_sequence(&mut chars, &mut current_char, "true").is_ok());
    assert_eq!(current_char, None);

    let input = "false";
    let mut chars = input.chars();
    let mut current_char = chars.next();
    assert!(expect_sequence(&mut chars, &mut current_char, "false").is_ok());
    assert_eq!(current_char, None);

    let input = "tru";
    let mut chars = input.chars();
    let mut current_char = chars.next();
    assert!(expect_sequence(&mut chars, &mut current_char, "true").is_err());
}

#[test]
fn skip_whitespace_to_end_and_unicode() {
    let input = " \t\n";
    let mut chars = input.chars();
    let mut current_char = chars.next();
    skip_whitespace(&mut chars, &mut current_char);
    assert_eq!(current_char, None);
    assert_eq!(chars.next(), None);

    let input = "\u{2003}x y";
    let mut chars = input.chars();
    let mut current_char = chars.next();
    skip_whitespace(&mut chars, &mut current_char);
    assert_eq!(current_char, Some('x'));
    assert_eq!(chars.as_str(), " y");
}

#[test]
fn expect_sequence_stops_at_mismatch() {
    let input = "nulx";
    let mut chars = input.chars();
    let mut current_char = chars.next();
    let r = expect_sequence(&mut chars, &mut current_char, "null");
    assert_eq!(r, Err("Expected 'l', found 'Some('x')'".to_string()));
    assert_eq!(current_char, Some('x'));

    let input = "nu";
    let mut chars = input.chars();
    let mut current_char = chars.next();
    let r = expect_sequence(&mut chars, &mut current_char, "null");
    assert_eq!(r, Err("Expected 'l', found 'None'".to_string()));

    let input = "abc";
    let mut chars = input.chars();
    let mut current_char = chars.next();
    assert_eq!(expect_sequence(&mut chars, &mut current_char, ""), Ok(()));
    assert_eq!(current_char, Some('a'));
}

#[test]
fn test_parse_query_string() {
    let query = "name=John&age=30";
    let params = parse_query_string(query);
    assert_eq!(params.get("name"), Some(&"John".to_string()));
    assert_eq!(params.get("age"), Some(&"30".to_string()));
}

#[test]
fn test_parse_url() {
    let url = "https://example.com/path?name=John&age=30";
    let components = parse_url(url).unwrap();
    assert_eq!(components.0, "https");
    assert_eq!(components.1, "example.com");
    assert_eq!(components.2, "/path");
    assert_eq!(components.3.get("name"), Some(&"John".to_string()));
    assert_eq!(components.3.get("age"), Some(&"30".to_string()));
}

#[test]
fn test_parse_url_no_path() {
    let url = "https://example.com?name=John&age=30";
    let components = parse_url(url).unwrap();
    assert_eq!(components.0, "https");
    assert_eq!(components.1, "example.com");
    assert_eq!(components.2, "/");
    assert_eq!(components.3.get("name"), Some(&"John".to_string()));
    assert_eq!(components.3.get("age"), Some(&"30".to_string()));
}

#[test]
fn query_string_edge_cases() {
    let params = parse_query_string("a=1&flag&b=2=3&a=4&=x&");
    assert_eq!(params.get("a"), Some(&"4".to_string()));
    assert_eq!(params.get("flag"), None);
    assert_eq!(params.get("b"), Some(&"2".to_string()));
    assert_eq!(params.get(""), Some(&"x".to_string()));
    assert_eq!(params.len(), 3);
    assert!(parse_query_string("").is_empty());
}

#[test]
fn url_edge_cases() {
    assert!(parse_url("example.com/path").is_none());
    assert!(parse_url("").is_none());

    let c = parse_url("ftp://host").unwrap();
    assert_eq!((c.0.as_str(), c.1.as_str(), c.2.as_str()), ("ftp", "host", "/"));
    assert!(c.3.is_empty());

    let c = parse_url("http://host/").unwrap();
    assert_eq!(c.2, "/");

    let c = parse_url("http://host/a/b").unwrap();
    assert_eq!(c.1, "host");
    assert_eq!(c.2, "/a/b");

    let c = parse_url("http://h?x=1/y").unwrap();
    assert_eq!(c.1, "h");
    assert_eq!(c.2, "/");
    assert_eq!(c.3.get("x"), Some(&"1".to_string()));

    let c = parse_url("a://b://c").unwrap();
    assert_eq!(c.0, "a");
    assert_eq!(c.1, "b:");
    assert_eq!(c.2, "//c");
}
