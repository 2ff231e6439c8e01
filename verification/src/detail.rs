//! From the texts of a detail page to the full record of a manga.

use crate::manga::{ContentRating, Manga, MangaStatus, MangaView, Viewer};
use crate::text::{chars_of, join, joined, same_text, texts};
use crate::url::{Address, Url};
use vstd::prelude::*;
use vstd::string::StringExecFns;

verus! {

/// The texts scraped from the detail page of a manga.
#[derive(Debug, Clone, PartialEq, Eq)]
pub struct DetailPage {
    /// The text of the primary heading.
    pub title: String,
    /// The text of the author's label.
    pub author: String,
    /// The texts of the paragraphs of the synopsis, in document order.
    pub paragraphs: Vec<String>,
    /// The texts of the tag links, in document order.
    pub tags: Vec<String>,
    /// The text of the category breadcrumb.
    pub category: String,
}

/// The mathematical content of a [`DetailPage`].
pub struct DetailPageView {
    pub title: Seq<char>,
    pub author: Seq<char>,
    pub paragraphs: Seq<Seq<char>>,
    pub tags: Seq<Seq<char>>,
    pub category: Seq<char>,
}

impl View for DetailPage {
    type V = DetailPageView;

    open spec fn view(&self) -> DetailPageView {
        DetailPageView {
            title: self.title@,
            author: self.author@,
            paragraphs: texts(self.paragraphs@),
            tags: texts(self.tags@),
            category: self.category@,
        }
    }
}

/// A tag that marks a manga as free of explicit content.
pub open spec fn is_clean(tag: Seq<char>) -> bool {
    tag == "清水向"@ || tag == "清水"@
}

/// A tag that marks a manga as one long strip.
pub open spec fn is_strip(tag: Seq<char>) -> bool {
    tag == "條漫"@
}

/// The rating the tags give: safe where one of them marks the manga as
/// clean, else restricted.
pub open spec fn rating_of(tags: Seq<Seq<char>>) -> ContentRating {
    if exists|i: int| 0 <= i < tags.len() && is_clean(#[trigger] tags[i]) {
        ContentRating::Safe
    } else {
        ContentRating::Nsfw
    }
}

/// The layout the tags give: a strip where one of them says so, else
/// page by page.
pub open spec fn viewer_of(tags: Seq<Seq<char>>) -> Viewer {
    if exists|i: int| 0 <= i < tags.len() && is_strip(#[trigger] tags[i]) {
        Viewer::Scroll
    } else {
        Viewer::Paged
    }
}

/// What follows the last `c` in a text, where the text holds a `c`.
pub open spec fn after_last(text: Seq<char>, c: char) -> Option<Seq<char>> {
    match text.index_of_last(c) {
        Some(i) => Some(text.skip(i + 1)),
        None => None,
    }
}

/// The status a category breadcrumb gives: what follows its last middle
/// dot says "complete" or "ongoing"; anything else is unknown.
pub open spec fn status_of(category: Seq<char>) -> MangaStatus {
    match after_last(category, '·') {
        Some(word) => if word == "完結"@ {
            MangaStatus::Completed
        } else if word == "連載"@ {
            MangaStatus::Ongoing
        } else {
            MangaStatus::Unknown
        },
        None => MangaStatus::Unknown,
    }
}

/// The record of the manga `id` whose detail page holds `page` and whose
/// cover was looked up as `cover`.
pub open spec fn details_of(id: Seq<char>, page: DetailPageView, cover: Option<Seq<char>>)
    -> MangaView {
    MangaView {
        id,
        cover: match cover {
            Some(c) => c,
            None => Seq::empty(),
        },
        title: page.title,
        author: page.author,
        description: joined(page.paragraphs, "\n\n"@),
        url: (Address::Manga { id }).rendered(),
        categories: page.tags,
        status: status_of(page.category),
        nsfw: rating_of(page.tags),
        viewer: viewer_of(page.tags),
    }
}

/// What follows the last `c` in a text, where the text holds a `c`.
pub fn substring_after_last(text: &str, c: char) -> (rest: Option<String>)
    ensures
        match rest {
            Some(r) => after_last(text@, c) == Some(r@),
            None => after_last(text@, c) is None,
        },
{
    let chars = chars_of(text);
    let mut last: Option<usize> = None;
    let mut i: usize = 0;
    while i < chars.len()
        invariant
            i <= chars.len(),
            match last {
                Some(k) => k < i && chars@[k as int] == c && forall|j: int|
                    k < j < i ==> chars@[j] != c,
                None => forall|j: int| 0 <= j < i ==> chars@[j] != c,
            },
        decreases chars.len() - i,
    {
        if chars[i] == c {
            last = Some(i);
        }
        i += 1;
    }
    proof {
        text@.index_of_last_ensures(c);
    }
    match last {
        Some(k) => {
            assert(text@.index_of_last(c) == Some(k as int));
            let mut rest = String::new();
            let mut j: usize = k + 1;
            while j < chars.len()
                invariant
                    k < j <= chars.len(),
                    rest@ == chars@.subrange(k + 1, j as int),
                decreases chars.len() - j,
            {
                rest.push(chars[j]);
                j += 1;
            }
            assert(chars@.subrange(k + 1, chars.len() as int) == chars@.skip(k + 1));
            Some(rest)
        },
        None => None,
    }
}

impl MangaStatus {
    /// The status a category breadcrumb gives.
    pub fn from_category(category: &str) -> (status: MangaStatus)
        ensures
            status == status_of(category@),
    {
        match substring_after_last(category, '·') {
            Some(word) => {
                if same_text(word.as_str(), "完結") {
                    MangaStatus::Completed
                } else if same_text(word.as_str(), "連載") {
                    MangaStatus::Ongoing
                } else {
                    MangaStatus::Unknown
                }
            },
            None => MangaStatus::Unknown,
        }
    }
}

/// The search that brings the listing entry of a manga, and with it the
/// cover that its detail page lacks: the first page of results for the title.
pub fn cover_search(title: &str) -> (url: Url)
    ensures
        url@ == (Address::Search { page: 1, keyword: title@ }),
{
    Url::search(title, 1)
}

/// The selector of the cover image among the results of [`cover_search`]:
/// the image inside the link whose target holds `/id/`.
pub fn cover_selector(id: &str) -> (selector: String)
    ensures
        selector@ == "a[href*=/"@ + id@ + "/] img"@,
{
    let mut selector = String::from_str("a[href*=/");
    selector.append(id);
    selector.append("/] img");
    selector
}

/// The rating and the layout that the tags of a detail page give.
pub fn flags_of(tags: &Vec<String>) -> (flags: (ContentRating, Viewer))
    ensures
        flags.0 == rating_of(texts(tags@)),
        flags.1 == viewer_of(texts(tags@)),
{
    let mut nsfw = ContentRating::Nsfw;
    let mut viewer = Viewer::Paged;
    let ghost all = texts(tags@);
    let mut i: usize = 0;
    while i < tags.len()
        invariant
            i <= tags.len(),
            all == texts(tags@),
            nsfw == rating_of(all.take(i as int)),
            viewer == viewer_of(all.take(i as int)),
        decreases tags.len() - i,
    {
        let tag = tags[i].as_str();
        let ghost before = all.take(i as int);
        let ghost after = all.take(i + 1);
        proof {
            assert(after == before.push(tag@));
            assert(forall|k: int| 0 <= k < before.len() ==> before[k] == after[k]);
            assert(after[i as int] == tag@);
        }
        if same_text(tag, "清水向") || same_text(tag, "清水") {
            nsfw = ContentRating::Safe;
        }
        if same_text(tag, "條漫") {
            viewer = Viewer::Scroll;
        }
        i += 1;
    }
    assert(all.take(tags.len() as int) == all);
    (nsfw, viewer)
}

/// The record of the manga `id`, from the texts of its detail page and the
/// cover found by the search for its title; without a cover the record's
/// cover is empty.
pub fn get_manga_details(id: String, page: DetailPage, cover: Option<String>) -> (manga: Manga)
    ensures
        manga@ == details_of(id@, page@, crate::text::optional_text(cover)),
{
    let url = Url::manga(id.as_str()).to_string();
    let description = join(&page.paragraphs, "\n\n");
    let (nsfw, viewer) = flags_of(&page.tags);
    let status = MangaStatus::from_category(page.category.as_str());
    let cover = match cover {
        Some(c) => c,
        None => String::new(),
    };
    Manga {
        id,
        cover,
        title: page.title,
        author: page.author,
        description,
        url,
        categories: page.tags,
        status,
        nsfw,
        viewer,
    }
}

} // verus!
