use yandanshe::deep_link::{DeepLink, chapter_id_of, deep_link_from, handle_url, match_deep_link};
use yandanshe::error::SourceError;

fn link(manga_id: &str, chapter_id: Option<&str>) -> Option<DeepLink> {
    Some(DeepLink { manga_id: manga_id.to_string(), chapter_id: chapter_id.map(|c| c.to_string()) })
}

#[test]
fn address_of_a_chapter() {
    assert_eq!(handle_url("https://site/123/45/"), Ok(link("123", Some("45"))));
    assert_eq!(handle_url("https://yandanshe.com/4821/3/"), Ok(link("4821", Some("3"))));
}

#[test]
fn address_of_the_first_chapter() {
    assert_eq!(handle_url("https://site/123/?start"), Ok(link("123", Some("1"))));
}

#[test]
fn address_of_a_manga() {
    assert_eq!(handle_url("https://site/123/"), Ok(link("123", None)));
}

#[test]
fn other_addresses_are_no_link() {
    assert_eq!(handle_url("https://site/"), Ok(None));
    assert_eq!(handle_url("https://site/123"), Ok(None));
    assert_eq!(handle_url("http://site/123/"), Ok(None));
    assert_eq!(handle_url("https://site/abc/"), Ok(None));
    assert_eq!(handle_url("https://site/123/45"), Ok(None));
    assert_eq!(handle_url("https://site/123/45/6/"), Ok(None));
    assert_eq!(handle_url("https://site/page/2/"), Ok(None));
    assert_eq!(handle_url("https://site/123/?start=1"), Ok(None));
    assert_eq!(handle_url("see https://site/123/"), Ok(None));
    assert_eq!(handle_url("https:///123/"), Ok(None));
    assert_eq!(handle_url(""), Ok(None));
}

#[test]
fn pattern_that_does_not_compile_is_an_error() {
    assert_eq!(match_deep_link("(", "https://site/123/"), Err(SourceError::InvalidPattern));
    assert_eq!(
        match_deep_link(r"(?<manga_id>\d+", "https://site/123/"),
        Err(SourceError::InvalidPattern)
    );
}

#[test]
fn groups_are_read_by_name_from_the_leftmost_match() {
    assert_eq!(
        match_deep_link(r"(?<chapter_id>[a-z]+/)-(?<manga_id>\d+)", "..ab/-12..cd/-34"),
        Ok(link("12", Some("ab")))
    );
    assert_eq!(match_deep_link(r"(?<manga_id>\d+)", "x77y88"), Ok(link("77", None)));
    assert_eq!(match_deep_link(r"(?<manga_id>\d+)", "none"), Ok(None));
}

#[test]
fn pattern_without_a_manga_group_gives_no_link() {
    assert_eq!(match_deep_link(r"\d+", "123"), Ok(None));
    assert_eq!(match_deep_link(r"(?<chapter_id>\d+)", "123"), Ok(None));
    assert_eq!(match_deep_link(r"(?<manga_id>a)?(?<chapter_id>\d+)", "123"), Ok(None));
}

#[test]
fn chapter_segment_loses_its_slashes() {
    assert_eq!(chapter_id_of("45/"), "45");
    assert_eq!(chapter_id_of("/4/5/"), "45");
    assert_eq!(chapter_id_of("45"), "45");
    assert_eq!(chapter_id_of(""), "");
}

#[test]
fn start_mark_is_the_first_chapter() {
    assert_eq!(chapter_id_of("?start"), "1");
    assert_eq!(chapter_id_of("?start/"), "?start");
}

#[test]
fn captured_groups_become_a_link() {
    assert_eq!(deep_link_from(None), None);
    assert_eq!(deep_link_from(Some((None, Some("45/".to_string())))), None);
    assert_eq!(deep_link_from(Some((Some("123".to_string()), None))), link("123", None));
    assert_eq!(
        deep_link_from(Some((Some("123".to_string()), Some("45/".to_string())))),
        link("123", Some("45"))
    );
    assert_eq!(
        deep_link_from(Some((Some("123".to_string()), Some("?start".to_string())))),
        link("123", Some("1"))
    );
}
