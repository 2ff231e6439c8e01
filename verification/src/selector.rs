//! Where on a page of the site each scraped text is found.
//!
//! The extractors of this crate work on texts; these are the CSS selectors,
//! attributes and the date pattern by which a caller reads those texts off
//! a fetched document.

use vstd::prelude::*;

verus! {

/// The title of a document, by which a blocked page is told.
pub const TITLE: &'static str = "title";

/// The items of a listing, in document order.
pub const ITEM: &'static str = "article.item";

/// Inside an item: the link, whose `href` is read.
pub const ITEM_LINK: &'static str = "a";

/// Inside an item: the image, whose `src` is read.
pub const ITEM_IMAGE: &'static str = "img";

/// Inside an item: the heading, whose text is the title.
pub const ITEM_HEADING: &'static str = "h3";

/// Inside an item: the label, whose text marks the members' area.
pub const ITEM_LABEL: &'static str = "span.label";

/// Inside an item: the footer, whose text tells the status.
pub const ITEM_FOOTER: &'static str = "footer";

/// The links of a listing to its next page.
pub const NEXT_PAGE: &'static str = "li.next-page a";

/// On a detail page: the primary heading.
pub const DETAIL_TITLE: &'static str = "h1";

/// On a detail page: the author's label.
pub const DETAIL_AUTHOR: &'static str = "span.item-author";

/// On a detail page: the paragraphs of the synopsis.
pub const DETAIL_PARAGRAPH: &'static str = "blockquote p";

/// On a detail page: the tag links.
pub const DETAIL_TAG: &'static str = "a[rel=tag]";

/// On a detail page: the category breadcrumb.
pub const DETAIL_CATEGORY: &'static str = "a[rel*=category]";

/// On a detail page: the links to its sections, one for every chapter.
pub const SECTION_LINK: &'static str = ".post-page-numbers";

/// On a detail page: the time of the last update.
pub const UPDATE_TIME: &'static str = "span.item-time";

/// The pattern in which the time of the last update is written.
pub const DATE_PATTERN: &'static str = "yyyy-MM-dd";

/// On a chapter page: the images, whose `data-src` is read.
pub const PAGE_IMAGE: &'static str = "img[data-src]";

/// The attribute of a page image that holds its source.
pub const PAGE_IMAGE_SOURCE: &'static str = "data-src";

/// On a chapter page: the mark that the reader has to sign in.
pub const SIGN_IN_MARK: &'static str = "div.article-login";

} // verus!
