use yandanshe::detail::{
    DetailPage, cover_search, cover_selector, flags_of, get_manga_details, substring_after_last,
};
use yandanshe::manga::{ContentRating, Manga, MangaStatus, Viewer};
use yandanshe::query::SearchQuery;
use yandanshe::url::Url;

fn strings(texts: &[&str]) -> Vec<String> {
    texts.iter().map(|t| t.to_string()).collect()
}

fn page(tags: &[&str], category: &str) -> DetailPage {
    DetailPage {
        title: "花火".to_string(),
        author: "作者".to_string(),
        paragraphs: strings(&["第一段", "第二段"]),
        tags: strings(tags),
        category: category.to_string(),
    }
}

#[test]
fn substring_after_last_takes_what_follows_the_last_occurrence() {
    assert_eq!(substring_after_last("漫畫·耽美·完結", '·'), Some("完結".to_string()));
    assert_eq!(substring_after_last("a·b", '·'), Some("b".to_string()));
    assert_eq!(substring_after_last("a·", '·'), Some(String::new()));
    assert_eq!(substring_after_last("·", '·'), Some(String::new()));
    assert_eq!(substring_after_last("··x", '·'), Some("x".to_string()));
}

#[test]
fn substring_after_last_finds_nothing_without_the_character() {
    assert_eq!(substring_after_last("完結", '·'), None);
    assert_eq!(substring_after_last("", '·'), None);
    assert_eq!(substring_after_last("a.b", '·'), None);
}

#[test]
fn status_is_read_after_the_last_middle_dot() {
    assert_eq!(MangaStatus::from_category("耽美·完結"), MangaStatus::Completed);
    assert_eq!(MangaStatus::from_category("耽美·連載"), MangaStatus::Ongoing);
    assert_eq!(MangaStatus::from_category("完結·耽美·連載"), MangaStatus::Ongoing);
    assert_eq!(MangaStatus::from_category("·完結"), MangaStatus::Completed);
}

#[test]
fn status_is_unknown_for_anything_else() {
    assert_eq!(MangaStatus::from_category("完結"), MangaStatus::Unknown);
    assert_eq!(MangaStatus::from_category("連載"), MangaStatus::Unknown);
    assert_eq!(MangaStatus::from_category("耽美·休刊"), MangaStatus::Unknown);
    assert_eq!(MangaStatus::from_category("耽美·完結 "), MangaStatus::Unknown);
    assert_eq!(MangaStatus::from_category("耽美·完結·"), MangaStatus::Unknown);
    assert_eq!(MangaStatus::from_category(""), MangaStatus::Unknown);
}

#[test]
fn clean_tag_makes_the_manga_safe() {
    assert_eq!(flags_of(&strings(&["校園", "清水"])).0, ContentRating::Safe);
    assert_eq!(flags_of(&strings(&["清水向"])).0, ContentRating::Safe);
    assert_eq!(flags_of(&strings(&["清水", "校園", "奇幻"])).0, ContentRating::Safe);
    assert_eq!(flags_of(&strings(&["校園"])).0, ContentRating::Nsfw);
    assert_eq!(flags_of(&strings(&["清水 "])).0, ContentRating::Nsfw);
    assert_eq!(flags_of(&strings(&[])).0, ContentRating::Nsfw);
}

#[test]
fn strip_tag_makes_the_manga_scroll() {
    assert_eq!(flags_of(&strings(&["條漫"])).1, Viewer::Scroll);
    assert_eq!(flags_of(&strings(&["條漫", "校園"])).1, Viewer::Scroll);
    assert_eq!(flags_of(&strings(&["校園", "清水"])).1, Viewer::Paged);
    assert_eq!(flags_of(&strings(&[])).1, Viewer::Paged);
}

#[test]
fn both_flags_are_read_from_one_tag_list() {
    assert_eq!(flags_of(&strings(&["條漫", "清水向"])), (ContentRating::Safe, Viewer::Scroll));
}

#[test]
fn cover_is_searched_by_title_on_the_first_page() {
    assert_eq!(
        cover_search("花火"),
        Url::Search { page: 1, query: SearchQuery::new("花火".to_string()) }
    );
    assert_eq!(cover_search("花火").to_string(), "https://yandanshe.com/page/1/?s=花火");
}

#[test]
fn cover_selector_names_the_link_of_the_manga() {
    assert_eq!(cover_selector("4821"), "a[href*=/4821/] img");
    assert_eq!(cover_selector(""), "a[href*=//] img");
}

#[test]
fn details_are_put_together_from_the_page() {
    let manga = get_manga_details(
        "4821".to_string(),
        page(&["校園", "清水", "條漫"], "耽美·完結"),
        Some("https://img/4821.jpg".to_string()),
    );
    assert_eq!(
        manga,
        Manga {
            id: "4821".to_string(),
            cover: "https://img/4821.jpg".to_string(),
            title: "花火".to_string(),
            author: "作者".to_string(),
            description: "第一段\n\n第二段".to_string(),
            url: "https://yandanshe.com/4821/".to_string(),
            categories: strings(&["校園", "清水", "條漫"]),
            status: MangaStatus::Completed,
            nsfw: ContentRating::Safe,
            viewer: Viewer::Scroll,
        }
    );
}

#[test]
fn missing_cover_is_empty() {
    let manga = get_manga_details("1".to_string(), page(&[], "耽美·連載"), None);
    assert_eq!(manga.cover, "");
    assert_eq!(manga.status, MangaStatus::Ongoing);
    assert_eq!(manga.nsfw, ContentRating::Nsfw);
    assert_eq!(manga.viewer, Viewer::Paged);
    assert_eq!(manga.categories, Vec::<String>::new());
}

#[test]
fn description_joins_paragraphs_with_a_blank_line() {
    let mut one = page(&[], "");
    one.paragraphs = strings(&["only"]);
    assert_eq!(get_manga_details("1".to_string(), one, None).description, "only");
    let mut none = page(&[], "");
    none.paragraphs = vec![];
    assert_eq!(get_manga_details("1".to_string(), none, None).description, "");
    let mut three = page(&[], "");
    three.paragraphs = strings(&["a", "", "c"]);
    assert_eq!(get_manga_details("1".to_string(), three, None).description, "a\n\n\n\nc");
}
