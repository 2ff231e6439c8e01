use yandanshe::filter::{Mode, Sort};
use yandanshe::query::{FiltersQuery, SearchQuery, encode_uri_component};

fn query(tags: &[&str], mode: Mode, sort_by: Sort) -> FiltersQuery {
    FiltersQuery::new(tags.iter().map(|t| t.to_string()).collect(), mode, sort_by)
}

#[test]
fn unreserved_characters_are_kept() {
    let kept = "ABCDEFGHIJKLMNOPQRSTUVWXYZabcdefghijklmnopqrstuvwxyz0123456789-_.!~*'()";
    assert_eq!(encode_uri_component(kept), kept);
}

#[test]
fn reserved_characters_become_upper_case_hex() {
    assert_eq!(encode_uri_component("a b"), "a%20b");
    assert_eq!(encode_uri_component("a+b&c"), "a%2Bb%26c");
    assert_eq!(encode_uri_component("/?#=,;:@$"), "%2F%3F%23%3D%2C%3B%3A%40%24");
    assert_eq!(encode_uri_component("%"), "%25");
    assert_eq!(encode_uri_component("\u{0}\n\u{7f}"), "%00%0A%7F");
    assert_eq!(encode_uri_component("[]{}|\\^`\"<>"), "%5B%5D%7B%7D%7C%5C%5E%60%22%3C%3E");
}

#[test]
fn text_is_encoded_byte_by_byte_of_its_utf8_form() {
    assert_eq!(encode_uri_component("清水"), "%E6%B8%85%E6%B0%B4");
    assert_eq!(encode_uri_component("條漫"), "%E6%A2%9D%E6%BC%AB");
    assert_eq!(encode_uri_component("百合/GL"), "%E7%99%BE%E5%90%88%2FGL");
    assert_eq!(encode_uri_component("é"), "%C3%A9");
    assert_eq!(encode_uri_component("\u{1F600}"), "%F0%9F%98%80");
}

#[test]
fn empty_component_stays_empty() {
    assert_eq!(encode_uri_component(""), "");
}

#[test]
fn tags_are_joined_by_the_separator_of_the_mode() {
    assert_eq!(query(&["a", "b"], Mode::And, Sort::LastUpdated).to_string(), "tag=a+b");
    assert_eq!(query(&["a", "b"], Mode::Or, Sort::LastUpdated).to_string(), "tag=a,b");
}

#[test]
fn single_tag_has_no_separator() {
    assert_eq!(query(&["a"], Mode::And, Sort::LastUpdated).to_string(), "tag=a");
    assert_eq!(query(&["a"], Mode::Or, Sort::LastUpdated).to_string(), "tag=a");
}

#[test]
fn tags_are_encoded_but_the_separator_is_not() {
    assert_eq!(
        query(&["a+b", "c,d", "校園"], Mode::And, Sort::LastUpdated).to_string(),
        "tag=a%2Bb+c%2Cd+%E6%A0%A1%E5%9C%92"
    );
    assert_eq!(
        query(&["a+b", "c,d"], Mode::Or, Sort::LastUpdated).to_string(),
        "tag=a%2Bb,c%2Cd"
    );
}

#[test]
fn duplicate_and_empty_tags_are_kept() {
    assert_eq!(query(&["a", "a"], Mode::And, Sort::LastUpdated).to_string(), "tag=a+a");
    assert_eq!(query(&["", ""], Mode::Or, Sort::LastUpdated).to_string(), "tag=,");
    assert_eq!(query(&[""], Mode::Or, Sort::LastUpdated).to_string(), "tag=");
}

#[test]
fn empty_tag_list_writes_no_tag_parameter() {
    assert_eq!(query(&[], Mode::And, Sort::LastUpdated).to_string(), "");
    assert_eq!(query(&[], Mode::Or, Sort::LastUpdated).to_string(), "");
    assert_eq!(query(&[], Mode::And, Sort::Likes).to_string(), "sort=like");
}

#[test]
fn default_order_writes_no_sort_parameter() {
    let rendered = query(&["a"], Mode::And, Sort::LastUpdated).to_string();
    assert_eq!(rendered, "tag=a");
    assert!(!rendered.contains("sort"));
}

#[test]
fn tag_stands_before_sort() {
    assert_eq!(query(&["a", "b"], Mode::And, Sort::Likes).to_string(), "tag=a+b&sort=like");
    assert_eq!(query(&["x"], Mode::Or, Sort::Likes).to_string(), "tag=x&sort=like");
}

#[test]
fn rendering_twice_gives_the_same_bytes() {
    let q = query(&["校園", "a b"], Mode::Or, Sort::Likes);
    let first = q.to_string();
    let second = q.to_string();
    assert_eq!(first.as_bytes(), second.as_bytes());
    let copy = query(&["校園", "a b"], Mode::Or, Sort::Likes);
    assert_eq!(copy.to_string().as_bytes(), first.as_bytes());
}

#[test]
fn new_keeps_what_it_is_given() {
    let q = FiltersQuery::new(vec!["t".to_string()], Mode::Or, Sort::Likes);
    assert_eq!(q.tags, vec!["t".to_string()]);
    assert_eq!(q.mode, Mode::Or);
    assert_eq!(q.sort_by, Sort::Likes);
    assert_eq!(SearchQuery::new("k".to_string()).keyword, "k");
}

#[test]
fn search_query_writes_the_keyword_as_given() {
    assert_eq!(SearchQuery::new("abc".to_string()).to_string(), "s=abc");
    assert_eq!(SearchQuery::new("a b&c".to_string()).to_string(), "s=a b&c");
    assert_eq!(SearchQuery::new("花".to_string()).to_string(), "s=花");
    assert_eq!(SearchQuery::new(String::new()).to_string(), "s=");
}
