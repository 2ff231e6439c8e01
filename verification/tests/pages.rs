use yandanshe::error::SourceError;
use yandanshe::page::{Page, get_page_list, page_index};

fn image(index: i32, url: &str) -> Page {
    Page { index, url: url.to_string(), base64: String::new() }
}

fn sources(urls: &[&str]) -> Vec<Option<String>> {
    urls.iter().map(|u| Some(u.to_string())).collect()
}

#[test]
fn page_index_fits_up_to_the_largest_index() {
    assert_eq!(page_index(0), Ok(0));
    assert_eq!(page_index(41), Ok(41));
    assert_eq!(page_index(2147483647), Ok(i32::MAX));
}

#[test]
fn page_index_overflows_above_the_largest_index() {
    assert_eq!(page_index(2147483648), Err(SourceError::IndexOverflow));
    assert_eq!(page_index(usize::MAX), Err(SourceError::IndexOverflow));
}

#[test]
fn images_become_pages_in_document_order() {
    assert_eq!(
        get_page_list(sources(&["a.jpg", "b.jpg", "c.jpg"]), false, "NOTICE"),
        Ok(vec![image(0, "a.jpg"), image(1, "b.jpg"), image(2, "c.jpg")])
    );
}

#[test]
fn sign_in_page_follows_the_real_pages() {
    assert_eq!(
        get_page_list(sources(&["a.jpg", "b.jpg"]), true, "NOTICE"),
        Ok(vec![
            image(0, "a.jpg"),
            image(1, "b.jpg"),
            Page { index: 2, url: String::new(), base64: "NOTICE".to_string() },
        ])
    );
}

#[test]
fn sign_in_page_stands_alone_without_images() {
    assert_eq!(
        get_page_list(vec![], true, "NOTICE"),
        Ok(vec![Page { index: 0, url: String::new(), base64: "NOTICE".to_string() }])
    );
}

#[test]
fn no_images_and_no_sign_in_give_no_pages() {
    assert_eq!(get_page_list(vec![], false, "NOTICE"), Ok(vec![]));
}

#[test]
fn one_unreadable_image_fails_the_whole_list() {
    let images = vec![Some("a.jpg".to_string()), None, Some("c.jpg".to_string())];
    assert_eq!(get_page_list(images.clone(), false, ""), Err(SourceError::MalformedFragment));
    assert_eq!(get_page_list(images, true, ""), Err(SourceError::MalformedFragment));
}
