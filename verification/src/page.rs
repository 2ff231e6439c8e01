//! The pages of a chapter, from the images of its page.

use crate::error::SourceError;
use vstd::prelude::*;
use vstd::string::StringExecFns;

verus! {

/// One page of a chapter: an image to fetch from `url`, or one that is
/// carried along in `base64`.
#[derive(Debug, Clone, PartialEq, Eq)]
pub struct Page {
    pub index: i32,
    pub url: String,
    pub base64: String,
}

/// The mathematical content of a [`Page`].
pub struct PageView {
    pub index: int,
    pub url: Seq<char>,
    pub base64: Seq<char>,
}

impl View for Page {
    type V = PageView;

    open spec fn view(&self) -> PageView {
        PageView { index: self.index as int, url: self.url@, base64: self.base64@ }
    }
}

/// The pages of a list, each by its content.
pub open spec fn page_views(pages: Seq<Page>) -> Seq<PageView> {
    pages.map_values(|p: Page| p@)
}

/// The image sources of a list; `None` stands for an image that could not
/// be read as a fragment of the page.
pub open spec fn source_views(images: Seq<Option<String>>) -> Seq<Option<Seq<char>>> {
    images.map_values(
        |image: Option<String>|
            match image {
                Some(s) => Some(s@),
                None => None,
            },
    )
}

/// Why the image at position `i` gives no page, if it gives none: its
/// position does not fit the index type, or it could not be read.
pub open spec fn failure_at(images: Seq<Option<Seq<char>>>, i: int) -> Option<SourceError> {
    if i > i32::MAX {
        Some(SourceError::IndexOverflow)
    } else if images[i] is None {
        Some(SourceError::MalformedFragment)
    } else {
        None
    }
}

/// The page of the image at position `i`.
pub open spec fn image_page(images: Seq<Option<Seq<char>>>, i: int) -> PageView {
    PageView { index: i, url: images[i]->0, base64: Seq::empty() }
}

/// The page that tells the reader to sign in, at position `i`.
pub open spec fn sign_in_page(i: int, notice: Seq<char>) -> PageView {
    PageView { index: i, url: Seq::empty(), base64: notice }
}

/// The pages of a chapter whose images all give a page: one for every
/// image, in document order, and after them the sign-in page where the
/// chapter asks for one.
pub open spec fn pages_of(
    images: Seq<Option<Seq<char>>>,
    requires_sign_in: bool,
    notice: Seq<char>,
) -> Seq<PageView> {
    let shown = Seq::new(images.len(), |i: int| image_page(images, i));
    if requires_sign_in {
        shown.push(sign_in_page(images.len() as int, notice))
    } else {
        shown
    }
}

/// The index of the page at a position, where the position fits the index
/// type.
pub fn page_index(position: usize) -> (index: Result<i32, SourceError>)
    ensures
        index == (if position <= i32::MAX {
            Ok::<i32, SourceError>(position as i32)
        } else {
            Err::<i32, SourceError>(SourceError::IndexOverflow)
        }),
{
    match i32::try_from(position) {
        Ok(index) => Ok(index),
        Err(_) => Err(SourceError::IndexOverflow),
    }
}

/// The pages of a chapter, from the sources of the images of its page, in
/// document order. Where the page asks the reader to sign in, one more page
/// follows the real ones and carries the image `notice` in place of an address.
/// The first image that gives no page fails the whole list, and so does a
/// sign-in page whose position does not fit the index type.
pub fn get_page_list(
    images: Vec<Option<String>>,
    requires_sign_in: bool,
    notice: &str,
) -> (result: Result<Vec<Page>, SourceError>)
    ensures
        match result {
            Ok(pages) => {
                &&& forall|i: int|
                    0 <= i < images.len() ==> failure_at(source_views(images@), i) is None
                &&& requires_sign_in ==> images.len() <= i32::MAX
                &&& page_views(pages@) == pages_of(
                    source_views(images@),
                    requires_sign_in,
                    notice@,
                )
            },
            Err(e) => {
                ||| exists|i: int|
                    {
                        &&& 0 <= i < images.len()
                        &&& failure_at(source_views(images@), i) == Some(e)
                        &&& forall|j: int|
                            0 <= j < i ==> failure_at(source_views(images@), j) is None
                    }
                ||| {
                    &&& forall|i: int|
                        0 <= i < images.len() ==> failure_at(source_views(images@), i) is None
                    &&& requires_sign_in
                    &&& images.len() > i32::MAX
                    &&& e == SourceError::IndexOverflow
                }
            },
        },
{
    let ghost sources = source_views(images@);
    let mut pages: Vec<Page> = Vec::new();
    let mut i: usize = 0;
    while i < images.len()
        invariant
            i <= images.len(),
            sources == source_views(images@),
            forall|j: int| 0 <= j < i ==> failure_at(sources, j) is None,
            page_views(pages@) == Seq::new(i as nat, |k: int| image_page(sources, k)),
        decreases images.len() - i,
    {
        let index = match page_index(i) {
            Ok(index) => index,
            Err(e) => {
                assert(failure_at(sources, i as int) == Some(e));
                return Err(e);
            },
        };
        let url = match &images[i] {
            Some(source) => source.clone(),
            None => {
                assert(failure_at(sources, i as int) == Some(SourceError::MalformedFragment));
                return Err(SourceError::MalformedFragment);
            },
        };
        let page = Page { index, url, base64: String::new() };
        proof {
            assert(page@ == image_page(sources, i as int));
            assert(page_views(pages@.push(page)) == page_views(pages@).push(page@));
            assert(Seq::new((i + 1) as nat, |k: int| image_page(sources, k)) == Seq::new(
                i as nat,
                |k: int| image_page(sources, k),
            ).push(image_page(sources, i as int)));
        }
        pages.push(page);
        i += 1;
    }
    if requires_sign_in {
        let index = match page_index(pages.len()) {
            Ok(index) => index,
            Err(e) => {
                return Err(e);
            },
        };
        let page = Page { index, url: String::new(), base64: String::from_str(notice) };
        proof {
            assert(page@ == sign_in_page(images.len() as int, notice@));
            assert(page_views(pages@.push(page)) == page_views(pages@).push(page@));
        }
        pages.push(page);
    }
    Ok(pages)
}

} // verus!
