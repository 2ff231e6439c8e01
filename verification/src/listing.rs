//! From the items of a listing page to catalogue entries.

use crate::error::SourceError;
use crate::manga::{ContentRating, Manga, MangaStatus, MangaView, Viewer, manga_views};
use crate::text::{first_char_is, same_text};
use vstd::prelude::*;
use vstd::string::StringExecFns;

verus! {

/// The texts scraped from one item of a listing page.
#[derive(Debug, Clone, PartialEq, Eq)]
pub struct ListingItem {
    /// Where the item's link leads.
    pub href: String,
    /// The source of the item's image.
    pub cover: String,
    /// The text of the item's heading.
    pub title: String,
    /// The text of the item's label.
    pub label: String,
    /// The text of the item's footer.
    pub footer: String,
}

/// The mathematical content of a [`ListingItem`].
pub struct ListingItemView {
    pub href: Seq<char>,
    pub cover: Seq<char>,
    pub title: Seq<char>,
    pub label: Seq<char>,
    pub footer: Seq<char>,
}

impl View for ListingItem {
    type V = ListingItemView;

    open spec fn view(&self) -> ListingItemView {
        ListingItemView {
            href: self.href@,
            cover: self.cover@,
            title: self.title@,
            label: self.label@,
            footer: self.footer@,
        }
    }
}

/// What was scraped from a listing page: its items in document order, an
/// item that could not be read as a fragment of the page standing as
/// `None`, and the number of links to a next page.
#[derive(Debug, Clone, PartialEq, Eq)]
pub struct ListingPage {
    pub items: Vec<Option<ListingItem>>,
    pub next_page_links: usize,
}

/// One page of a listing.
#[derive(Debug, Clone, PartialEq, Eq)]
pub struct MangaPageResult {
    pub manga: Vec<Manga>,
    pub has_more: bool,
}

/// Whether a character is one of `0` to `9`.
pub open spec fn is_digit() -> spec_fn(char) -> bool {
    |c: char| '0' <= c <= '9'
}

/// The decimal digits of a text, in their order.
pub open spec fn digits(text: Seq<char>) -> Seq<char> {
    text.filter(is_digit())
}

/// The tags of a listing entry: the members' area where the label marks
/// the item as for members, else none.
pub open spec fn entry_categories(label: Seq<char>) -> Seq<Seq<char>> {
    if label == "會員"@ {
        seq!["會員專區"@]
    } else {
        seq![]
    }
}

/// The status of a listing entry: completed where the footer begins with
/// the glyph for "complete", else ongoing.
pub open spec fn entry_status(footer: Seq<char>) -> MangaStatus {
    if footer.len() > 0 && footer[0] == '全' {
        MangaStatus::Completed
    } else {
        MangaStatus::Ongoing
    }
}

/// The catalogue entry that an item of a listing stands for.
pub open spec fn entry_of(item: ListingItemView) -> MangaView {
    MangaView {
        id: digits(item.href),
        cover: item.cover,
        title: item.title,
        author: Seq::empty(),
        description: Seq::empty(),
        url: item.href,
        categories: entry_categories(item.label),
        status: entry_status(item.footer),
        nsfw: ContentRating::Nsfw,
        viewer: Viewer::Paged,
    }
}

/// The items of a page, each by its content.
pub open spec fn item_views(items: Seq<Option<ListingItem>>) -> Seq<Option<ListingItemView>> {
    items.map_values(
        |item: Option<ListingItem>|
            match item {
                Some(i) => Some(i@),
                None => None,
            },
    )
}

/// The decimal digits of a text, in their order.
pub fn digits_of(text: &str) -> (out: String)
    ensures
        out@ == digits(text@),
{
    let mut out = String::new();
    proof {
        text@.take(0).lemma_filter_len(is_digit());
    }
    for c in it: text.chars()
        invariant
            it.seq() == text@,
            out@ == digits(text@.take(it.index() as int)),
    {
        proof {
            let seen = text@.take(it.index() as int);
            assert(text@.take(it.index() + 1) == seen.push(c));
            seen.lemma_filter_push(c, is_digit());
        }
        if '0' <= c && c <= '9' {
            out.push(c);
        }
    }
    assert(text@.take(text@.len() as int) == text@);
    out
}

impl ListingItem {
    /// The catalogue entry that the item stands for. Its content rating is
    /// always the restricted one: only a detail page can tell otherwise.
    pub fn to_manga(&self) -> (manga: Manga)
        ensures
            manga@ == entry_of(self@),
    {
        let mut categories: Vec<String> = Vec::new();
        if same_text(self.label.as_str(), "會員") {
            categories.push(String::from_str("會員專區"));
        }
        let status = if first_char_is(self.footer.as_str(), '全') {
            MangaStatus::Completed
        } else {
            MangaStatus::Ongoing
        };
        let manga = Manga {
            id: digits_of(self.href.as_str()),
            cover: self.cover.clone(),
            title: self.title.clone(),
            author: String::new(),
            description: String::new(),
            url: self.href.clone(),
            categories,
            status,
            nsfw: ContentRating::Nsfw,
            viewer: Viewer::Paged,
        };
        assert(manga@.categories == entry_categories(self@.label));
        manga
    }
}

/// A page that can be read as one page of a listing.
pub trait MangaListPage {
    /// What the page stands for.
    spec fn listing(self) -> Result<(Seq<MangaView>, bool), SourceError>;

    /// The entries of the page and whether another page follows.
    fn get_manga_page_result(self) -> (result: Result<MangaPageResult, SourceError>)
        ensures
            match result {
                Ok(page) => self.listing() == Ok::<(Seq<MangaView>, bool), SourceError>(
                    (manga_views(page.manga@), page.has_more),
                ),
                Err(e) => self.listing() == Err::<(Seq<MangaView>, bool), SourceError>(e),
            },
    ;
}

impl MangaListPage for ListingPage {
    /// One entry for every item, in document order, and another page
    /// follows exactly where a link to one exists. A single item that
    /// could not be read fails the whole page.
    open spec fn listing(self) -> Result<(Seq<MangaView>, bool), SourceError> {
        let items = item_views(self.items@);
        if forall|i: int| 0 <= i < items.len() ==> (#[trigger] items[i]) is Some {
            Ok((items.map_values(|item: Option<ListingItemView>| entry_of(item->0)),
                self.next_page_links > 0))
        } else {
            Err(SourceError::MalformedFragment)
        }
    }

    fn get_manga_page_result(self) -> (result: Result<MangaPageResult, SourceError>) {
        let mut manga: Vec<Manga> = Vec::new();
        let ghost items = item_views(self.items@);
        let ghost entry = |item: Option<ListingItemView>| entry_of(item->0);
        let mut i: usize = 0;
        while i < self.items.len()
            invariant
                i <= self.items.len(),
                items == item_views(self.items@),
                entry == |item: Option<ListingItemView>| entry_of(item->0),
                forall|k: int| 0 <= k < i ==> (#[trigger] items[k]) is Some,
                manga_views(manga@) == items.take(i as int).map_values(entry),
            decreases self.items.len() - i,
        {
            match &self.items[i] {
                Some(item) => {
                    let next = item.to_manga();
                    proof {
                        assert(items.take(i + 1) == items.take(i as int).push(items[i as int]));
                        assert(manga_views(manga@.push(next)) == manga_views(manga@).push(next@));
                    }
                    manga.push(next);
                },
                None => {
                    assert(items[i as int] is None);
                    return Err(SourceError::MalformedFragment);
                },
            }
            i += 1;
        }
        assert(items.take(self.items.len() as int) == items);
        let has_more = self.next_page_links > 0;
        Ok(MangaPageResult { manga, has_more })
    }
}

/// A page all of whose items can be read gives one entry for every item, in
/// document order. An entry is completed exactly where the footer of its
/// item begins with the glyph for "complete", and ongoing otherwise. Another
/// page follows exactly where the page links to one.
pub proof fn law_listing_keeps_every_item(page: ListingPage)
    requires
        forall|i: int| 0 <= i < page.items.len() ==> (#[trigger] page.items[i]) is Some,
    ensures
        page.listing() matches Ok((entries, has_more)) && {
            &&& entries.len() == page.items.len()
            &&& has_more == (page.next_page_links > 0)
            &&& forall|i: int|
                #![trigger entries[i]]
                0 <= i < entries.len() ==> {
                    let item = page.items[i]->0@;
                    &&& entries[i] == entry_of(item)
                    &&& entries[i].status == (if item.footer.len() > 0 && item.footer[0] == '全' {
                        MangaStatus::Completed
                    } else {
                        MangaStatus::Ongoing
                    })
                }
        },
{
    let items = item_views(page.items@);
    assert forall|i: int| 0 <= i < items.len() implies (#[trigger] items[i]) is Some by {
        assert(page.items[i] is Some);
    }
}

/// A page with an item that cannot be read gives no entries at all.
pub proof fn law_unreadable_item_fails_listing(page: ListingPage, i: int)
    requires
        0 <= i < page.items.len(),
        page.items[i] is None,
    ensures
        page.listing() == Err::<(Seq<MangaView>, bool), SourceError>(SourceError::MalformedFragment),
{
    let items = item_views(page.items@);
    assert(items[i] is None);
}

} // verus!
