use oxidized_server::properties::{parse_properties, Properties};

fn get<'a>(p: &'a Properties, key: &str) -> Option<&'a str> {
    p.get(key).map(String::as_str)
}

#[test]
fn properties_later_key_wins() {
    let p = parse_properties("a=1\nb=2\na=3\n");
    assert_eq!(p.len(), 2);
    assert_eq!(get(&p, "a"), Some("3"));
    assert_eq!(get(&p, "b"), Some("2"));
}

#[test]
fn properties_key_without_value_and_empty_key() {
    let p = parse_properties("lonely\n=orphan\n  \t \n");
    assert_eq!(get(&p, "lonely"), Some(""));
    assert_eq!(p.len(), 1);
}

#[test]
fn properties_trailing_backslash_at_end_of_input() {
    let p = parse_properties("motd=Hello \\");
    assert_eq!(get(&p, "motd"), Some("Hello "));
}

#[test]
fn properties_crlf_lines() {
    let p = parse_properties("a=1\r\nb = two words \r\n");
    assert_eq!(get(&p, "a"), Some("1"));
    assert_eq!(get(&p, "b"), Some("two words"));
}

#[test]
fn properties_colon_before_equals_is_the_separator() {
    let p = parse_properties("url: http://x=y\n");
    assert_eq!(get(&p, "url"), Some("http://x=y"));
}

#[test]
fn properties_comments_after_whitespace() {
    let p = parse_properties("   # note\n\t! other\nk=v\n");
    assert_eq!(p.len(), 1);
    assert_eq!(get(&p, "k"), Some("v"));
}

#[test]
fn properties_insert_and_entries() {
    let mut p = Properties::new();
    assert!(p.is_empty());
    p.insert("x".to_string(), "1".to_string());
    p.insert("x".to_string(), "2".to_string());
    assert_eq!(p.len(), 1);
    assert_eq!(p.entries().len(), 1);
    assert_eq!(get(&p, "x"), Some("2"));
}

#[test]
fn properties_key_ends_at_first_separator_or_space() {
    let p = parse_properties("a b=c\n");
    assert_eq!(p.len(), 1);
    assert_eq!(get(&p, "a"), Some("b=c"));
    let p = parse_properties("key = value\nk2 : v2\nk3\tv3 x\n");
    assert_eq!(get(&p, "key"), Some("value"));
    assert_eq!(get(&p, "k2"), Some("v2"));
    assert_eq!(get(&p, "k3"), Some("v3 x"));
}

#[test]
fn properties_empty_key_adds_nothing() {
    let p = parse_properties("=x\n:y\n");
    assert_eq!(p.len(), 0);
    let p = parse_properties("a=1\na=2\n");
    assert_eq!(p.len(), 1);
    assert_eq!(get(&p, "a"), Some("2"));
}

#[test]
fn properties_second_text_overrides_first() {
    let first = "a=1\nb=2\n";
    let second = "a=3\nc=4\n";
    let joined = format!("{first}{second}");
    let p = parse_properties(&joined);
    assert_eq!(p.len(), 3);
    assert_eq!(get(&p, "a"), Some("3"));
    assert_eq!(get(&p, "b"), Some("2"));
    assert_eq!(get(&p, "c"), Some("4"));
}
