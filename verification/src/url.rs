//! The five addresses of the catalogue and how each is written.

use crate::error::SourceError;
use crate::filter::{Genre, Mode, Sort, Status};
use crate::query::{FiltersQuery, FiltersQueryView, SearchQuery, search_query};
use crate::text::{push_signed_decimal, same_text, signed_decimal, texts};
use vstd::prelude::*;
use vstd::string::StringExecFns;

verus! {

/// An address of the catalogue.
#[allow(inconsistent_fields)]
#[derive(Debug, Clone, PartialEq, Eq)]
pub enum Url {
    /// A page of the listing selected by filters.
    Filters { genre: Genre, status: Status, page: i32, query: FiltersQuery },
    /// A page of the results of a title search.
    Search { page: i32, query: SearchQuery },
    /// A page of the home listing.
    Home { page: i32 },
    /// The detail page of a manga.
    Manga { id: String },
    /// One chapter of a manga.
    Chapter { manga_id: String, chapter_id: String },
}

/// The mathematical content of a [`Url`].
pub enum Address {
    Filters { genre: Genre, status: Status, page: int, query: FiltersQueryView },
    Search { page: int, keyword: Seq<char> },
    Home { page: int },
    Manga { id: Seq<char> },
    Chapter { manga_id: Seq<char>, chapter_id: Seq<char> },
}

impl View for Url {
    type V = Address;

    open spec fn view(&self) -> Address {
        match self {
            Url::Filters { genre, status, page, query } => Address::Filters {
                genre: *genre,
                status: *status,
                page: *page as int,
                query: query@,
            },
            Url::Search { page, query } => Address::Search { page: *page as int, keyword: query@ },
            Url::Home { page } => Address::Home { page: *page as int },
            Url::Manga { id } => Address::Manga { id: id@ },
            Url::Chapter { manga_id, chapter_id } => Address::Chapter {
                manga_id: manga_id@,
                chapter_id: chapter_id@,
            },
        }
    }
}

/// Scheme and host of every address.
pub const DOMAIN: &'static str = "https://yandanshe.com";

/// Scheme and host of every address.
pub open spec fn domain() -> Seq<char> {
    DOMAIN@
}

impl Address {
    /// The address as one string: the domain, the path of the variant and,
    /// for the two listings that have one, `?` and the query.
    pub open spec fn rendered(self) -> Seq<char> {
        match self {
            Address::Filters { genre, status, page, query } => domain() + "/"@ + genre.code()
                + status.code() + "/page/"@ + signed_decimal(page) + "/?"@ + query.rendered(),
            Address::Search { page, keyword } => domain() + "/page/"@ + signed_decimal(page)
                + "/?"@ + search_query(keyword),
            Address::Home { page } => domain() + "/page/"@ + signed_decimal(page) + "/"@,
            Address::Manga { id } => domain() + "/"@ + id + "/"@,
            Address::Chapter { manga_id, chapter_id } => domain() + "/"@ + manga_id + "/"@
                + chapter_id + "/"@,
        }
    }
}

/// The address of a named listing: the home listing is the only one there
/// is, and a request for any other fails with the name it gave.
pub fn get_manga_listing(name: &str, page: i32) -> (result: Result<Url, SourceError>)
    ensures
        match result {
            Ok(url) => name@ == "首頁"@ && url@ == (Address::Home { page: page as int }),
            Err(e) => {
                &&& name@ != "首頁"@
                &&& e matches SourceError::UnimplementedListing { name: given }
                &&& given@ == name@
            },
        },
{
    if same_text(name, "首頁") {
        Ok(Url::home(page))
    } else {
        Err(SourceError::UnimplementedListing { name: String::from_str(name) })
    }
}

/// A listing without tags in the default order has an empty query: its
/// address ends with the `?` that opens one.
pub proof fn law_plain_listing_has_empty_query(genre: Genre, status: Status, page: int, mode: Mode)
    ensures
        (Address::Filters {
            genre,
            status,
            page,
            query: FiltersQueryView { tags: seq![], mode, sort_by: Sort::LastUpdated },
        }).rendered() == domain() + "/"@ + genre.code() + status.code() + "/page/"@
            + signed_decimal(page) + "/?"@,
{
    let query = FiltersQueryView { tags: seq![], mode, sort_by: Sort::LastUpdated };
    crate::query::law_parameters_are_ordered_and_omitted(query);
    let front = domain() + "/"@ + genre.code() + status.code() + "/page/"@ + signed_decimal(page)
        + "/?"@;
    assert(front + Seq::<char>::empty() == front);
}

/// Whether a document title is the one of the site's "temporarily blocked"
/// page.
pub open spec fn is_blocked(title: Seq<char>) -> bool {
    title == "您已被臨時封鎖"@
}

impl Url {
    /// The home listing's page `page`.
    pub fn home(page: i32) -> (url: Url)
        ensures
            url@ == (Address::Home { page: page as int }),
    {
        Url::Home { page }
    }

    /// The results of a search for `keyword`, page `page`.
    pub fn search(keyword: &str, page: i32) -> (url: Url)
        ensures
            url@ == (Address::Search { page: page as int, keyword: keyword@ }),
    {
        let query = SearchQuery::new(String::from_str(keyword));
        Url::Search { page, query }
    }

    /// The detail page of the manga `id`.
    pub fn manga(id: &str) -> (url: Url)
        ensures
            url@ == (Address::Manga { id: id@ }),
    {
        Url::Manga { id: String::from_str(id) }
    }

    /// The chapter `chapter_id` of the manga `manga_id`.
    pub fn chapter(manga_id: &str, chapter_id: &str) -> (url: Url)
        ensures
            url@ == (Address::Chapter { manga_id: manga_id@, chapter_id: chapter_id@ }),
    {
        Url::Chapter {
            manga_id: String::from_str(manga_id),
            chapter_id: String::from_str(chapter_id),
        }
    }

    /// The listing selected by the given state of the filters, page `page`.
    pub fn filters(
        genre: Genre,
        status: Status,
        tags: Vec<String>,
        mode: Mode,
        sort_by: Sort,
        page: i32,
    ) -> (url: Url)
        ensures
            url@ == (Address::Filters {
                genre,
                status,
                page: page as int,
                query: FiltersQueryView { tags: texts(tags@), mode, sort_by },
            }),
    {
        let query = FiltersQuery::new(tags, mode, sort_by);
        Url::Filters { genre, status, page, query }
    }

    /// The address as one string.
    pub fn to_string(&self) -> (out: String)
        ensures
            out@ == self@.rendered(),
    {
        let mut out = String::from_str(DOMAIN);
        match self {
            Url::Filters { genre, status, page, query } => {
                out.append("/");
                out.append(genre.as_str());
                out.append(status.as_str());
                out.append("/page/");
                push_signed_decimal(&mut out, *page as i64);
                out.append("/?");
                let query = query.to_string();
                out.append(query.as_str());
            },
            Url::Search { page, query } => {
                out.append("/page/");
                push_signed_decimal(&mut out, *page as i64);
                out.append("/?");
                let query = query.to_string();
                out.append(query.as_str());
            },
            Url::Home { page } => {
                out.append("/page/");
                push_signed_decimal(&mut out, *page as i64);
                out.append("/");
            },
            Url::Manga { id } => {
                out.append("/");
                out.append(id.as_str());
                out.append("/");
            },
            Url::Chapter { manga_id, chapter_id } => {
                out.append("/");
                out.append(manga_id.as_str());
                out.append("/");
                out.append(chapter_id.as_str());
                out.append("/");
            },
        }
        out
    }

    /// Decides what a fetch of this address has brought: the document with
    /// the given title is handed on, unless the title is the one of the
    /// site's "temporarily blocked" page.
    pub fn html<D>(&self, document: D, title: &str) -> (outcome: Result<D, SourceError>)
        ensures
            outcome == (if is_blocked(title@) {
                Err::<D, SourceError>(SourceError::Blocked)
            } else {
                Ok::<D, SourceError>(document)
            }),
    {
        if same_text(title, "您已被臨時封鎖") {
            Err(SourceError::Blocked)
        } else {
            Ok(document)
        }
    }
}

} // verus!
