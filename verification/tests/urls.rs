use yandanshe::error::SourceError;
use yandanshe::filter::{Genre, Mode, Sort, Status};
use yandanshe::url::{Url, get_manga_listing};

fn every_kind_of_address() -> Vec<Url> {
    vec![
        Url::filters(Genre::Yuri, Status::Ongoing, vec![], Mode::And, Sort::Likes, 1),
        Url::search("花", 1),
        Url::home(1),
        Url::manga("123"),
        Url::chapter("123", "4"),
    ]
}

#[test]
fn home_address() {
    assert_eq!(Url::home(1), Url::Home { page: 1 });
    assert_eq!(Url::home(1).to_string(), "https://yandanshe.com/page/1/");
    assert_eq!(Url::home(27).to_string(), "https://yandanshe.com/page/27/");
}

#[test]
fn page_numbers_are_written_in_decimal() {
    assert_eq!(Url::home(0).to_string(), "https://yandanshe.com/page/0/");
    assert_eq!(Url::home(10).to_string(), "https://yandanshe.com/page/10/");
    assert_eq!(Url::home(-3).to_string(), "https://yandanshe.com/page/-3/");
    assert_eq!(Url::home(i32::MAX).to_string(), "https://yandanshe.com/page/2147483647/");
    assert_eq!(Url::home(i32::MIN).to_string(), "https://yandanshe.com/page/-2147483648/");
}

#[test]
fn search_address() {
    assert_eq!(Url::search("abc", 2).to_string(), "https://yandanshe.com/page/2/?s=abc");
    assert_eq!(Url::search("花 火", 1).to_string(), "https://yandanshe.com/page/1/?s=花 火");
}

#[test]
fn manga_address() {
    assert_eq!(Url::manga("123"), Url::Manga { id: "123".to_string() });
    assert_eq!(Url::manga("123").to_string(), "https://yandanshe.com/123/");
}

#[test]
fn chapter_address() {
    assert_eq!(
        Url::chapter("123", "45"),
        Url::Chapter { manga_id: "123".to_string(), chapter_id: "45".to_string() }
    );
    assert_eq!(Url::chapter("123", "45").to_string(), "https://yandanshe.com/123/45/");
}

#[test]
fn filters_address() {
    let plain = Url::filters(Genre::Yaoi, Status::Completed, vec![], Mode::And, Sort::LastUpdated, 1);
    assert_eq!(plain.to_string(), "https://yandanshe.com/blwj/page/1/?");
    let full = Url::filters(
        Genre::Yuri,
        Status::Ongoing,
        vec!["a".to_string(), "b".to_string()],
        Mode::And,
        Sort::Likes,
        3,
    );
    assert_eq!(full.to_string(), "https://yandanshe.com/bglz/page/3/?tag=a+b&sort=like");
    let either = Url::filters(
        Genre::Yaoi,
        Status::Ongoing,
        vec!["a".to_string(), "b".to_string()],
        Mode::Or,
        Sort::LastUpdated,
        3,
    );
    assert_eq!(either.to_string(), "https://yandanshe.com/bllz/page/3/?tag=a,b");
}

#[test]
fn blocked_title_fails_whatever_the_address() {
    for url in every_kind_of_address() {
        assert_eq!(url.html("document", "您已被臨時封鎖"), Err(SourceError::Blocked));
    }
}

#[test]
fn any_other_title_hands_the_document_on() {
    for url in every_kind_of_address() {
        assert_eq!(url.html(7, "妍蛋社"), Ok(7));
        assert_eq!(url.html(7, ""), Ok(7));
        assert_eq!(url.html(7, "您已被臨時封鎖 "), Ok(7));
        assert_eq!(url.html(7, "已被臨時封鎖"), Ok(7));
    }
}

#[test]
fn home_is_the_only_named_listing() {
    assert_eq!(get_manga_listing("首頁", 2), Ok(Url::Home { page: 2 }));
    assert_eq!(
        get_manga_listing("排行", 2),
        Err(SourceError::UnimplementedListing { name: "排行".to_string() })
    );
    assert_eq!(
        get_manga_listing("", 1),
        Err(SourceError::UnimplementedListing { name: String::new() })
    );
}
