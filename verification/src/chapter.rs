//! The chapters of a manga, numbered from the sections of its detail page.

use crate::text::{decimal, push_decimal};
use crate::url::{Address, Url};
use vstd::prelude::*;
use vstd::string::StringExecFns;

verus! {

/// One chapter of a manga. `D` is the caller's type of a parsed date.
#[derive(Debug, Clone, PartialEq, Eq)]
pub struct Chapter<D> {
    /// The number of the chapter, written in decimal.
    pub id: String,
    /// The number of the chapter, counted from one.
    pub chapter: usize,
    pub url: String,
    pub lang: String,
    /// When the chapter was last updated, where the page tells.
    pub date_updated: Option<D>,
}

/// The mathematical content of a [`Chapter`].
pub struct ChapterView<D> {
    pub id: Seq<char>,
    pub chapter: nat,
    pub url: Seq<char>,
    pub lang: Seq<char>,
    pub date_updated: Option<D>,
}

impl<D> View for Chapter<D> {
    type V = ChapterView<D>;

    open spec fn view(&self) -> ChapterView<D> {
        ChapterView {
            id: self.id@,
            chapter: self.chapter as nat,
            url: self.url@,
            lang: self.lang@,
            date_updated: self.date_updated,
        }
    }
}

/// How many chapters a detail page with the given number of section links
/// stands for: one for every link, and one where there is no link at all.
pub open spec fn chapter_count(section_links: nat) -> nat {
    if section_links == 0 {
        1
    } else {
        section_links
    }
}

/// The chapter at position `position` of a list of `count` chapters. The
/// list begins with the newest, so the numbers fall from `count` to one.
/// Only the newest chapter carries the date of the page.
pub open spec fn chapter_at<D>(manga_id: Seq<char>, count: nat, position: int, date: D)
    -> ChapterView<D> {
    let number = (count - position) as nat;
    ChapterView {
        id: decimal(number),
        chapter: number,
        url: (Address::Chapter { manga_id, chapter_id: decimal(number) }).rendered(),
        lang: "zh"@,
        date_updated: if position == 0 {
            Some(date)
        } else {
            None
        },
    }
}

/// The numbers of a chapter list fall by one from the count of chapters at
/// its head to one at its end, and the head alone carries the date. A page
/// without section links stands for one chapter.
pub proof fn law_chapters_count_down<D>(
    manga_id: Seq<char>,
    section_links: nat,
    position: int,
    date: D,
)
    requires
        0 <= position < chapter_count(section_links),
    ensures
        chapter_count(0) == 1,
        chapter_count(section_links) >= 1,
        chapter_at(manga_id, chapter_count(section_links), 0, date).chapter == chapter_count(
            section_links,
        ),
        chapter_at(
            manga_id,
            chapter_count(section_links),
            chapter_count(section_links) - 1,
            date,
        ).chapter == 1,
        chapter_at(manga_id, chapter_count(section_links), position, date).chapter
            == chapter_count(section_links) - position,
        chapter_at(manga_id, chapter_count(section_links), position, date).date_updated is Some
            <==> position == 0,
{
}

/// The decimal numeral of `n`.
pub fn decimal_string(n: u64) -> (out: String)
    ensures
        out@ == decimal(n as nat),
{
    let mut out = String::new();
    push_decimal(&mut out, n);
    assert(Seq::<char>::empty() + decimal(n as nat) == decimal(n as nat));
    out
}

/// The chapters of the manga `manga_id`, newest first, from the number of
/// section links on its detail page and the date parsed from the page.
pub fn get_chapter_list<D>(manga_id: &str, section_links: usize, date: D) -> (chapters: Vec<Chapter<D>>)
    ensures
        chapters.len() == chapter_count(section_links as nat),
        forall|k: int|
            0 <= k < chapters.len() ==> (#[trigger] chapters[k])@ == chapter_at(
                manga_id@,
                chapters.len() as nat,
                k,
                date,
            ),
{
    let count: usize = if section_links == 0 {
        1
    } else {
        section_links
    };
    let ghost newest = date;
    let mut chapters: Vec<Chapter<D>> = Vec::new();
    let mut head: Option<D> = Some(date);
    let mut n: usize = count;
    while n > 0
        invariant
            n <= count,
            chapters.len() == count - n,
            head == (if n == count {
                Some(newest)
            } else {
                None::<D>
            }),
            forall|k: int|
                0 <= k < chapters.len() ==> (#[trigger] chapters[k])@ == chapter_at(
                    manga_id@,
                    count as nat,
                    k,
                    newest,
                ),
        decreases n,
    {
        let id = decimal_string(n as u64);
        let url = Url::chapter(manga_id, id.as_str()).to_string();
        let date_updated = head;
        head = None;
        chapters.push(Chapter { id, chapter: n, url, lang: String::from_str("zh"), date_updated });
        n -= 1;
    }
    chapters
}

} // verus!
