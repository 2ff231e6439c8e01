//! From an address of the site, as a reader may paste it, to the manga and
//! the chapter it points to.

use crate::error::SourceError;
use crate::pattern::{captures, group_texts, regex_captures, regex_compiles};
use crate::text::optional_text;
use vstd::prelude::*;
use vstd::string::StringExecFns;

verus! {

/// What an address of the site points to.
#[derive(Debug, Clone, PartialEq, Eq)]
pub struct DeepLink {
    pub manga_id: String,
    pub chapter_id: Option<String>,
}

/// The mathematical content of a [`DeepLink`].
pub struct DeepLinkView {
    pub manga_id: Seq<char>,
    pub chapter_id: Option<Seq<char>>,
}

impl View for DeepLink {
    type V = DeepLinkView;

    open spec fn view(&self) -> DeepLinkView {
        DeepLinkView { manga_id: self.manga_id@, chapter_id: optional_text(self.chapter_id) }
    }
}

/// The content of an optional link.
pub open spec fn link_view(link: Option<DeepLink>) -> Option<DeepLinkView> {
    match link {
        Some(l) => Some(l@),
        None => None,
    }
}

/// The pattern of the addresses that point to a manga or a chapter: the
/// site, the number of the manga and then nothing more, the number of a
/// chapter, or the mark of a manga's first chapter.
pub open spec fn deep_link_pattern() -> Seq<char> {
    r"^https:\/\/[^/]+\/(?<manga_id>\d+)\/(?<chapter_id>(\d+\/|\?start))?$"@
}

/// Any character but a slash.
pub open spec fn is_no_slash() -> spec_fn(char) -> bool {
    |c: char| c != '/'
}

/// The chapter that the last segment of an address names: the first where
/// the segment is the mark `?start`, else the segment without its slashes.
pub open spec fn chapter_of(segment: Seq<char>) -> Seq<char> {
    if segment == "?start"@ {
        "1"@
    } else {
        segment.filter(is_no_slash())
    }
}

/// What the captured groups of an address stand for: no link where the
/// pattern did not match or took no manga, else the manga and, where a last
/// segment was taken, the chapter it names.
pub open spec fn deep_link_of(found: Option<(Option<Seq<char>>, Option<Seq<char>>)>) -> Option<
    DeepLinkView,
> {
    match found {
        Some((Some(manga_id), segment)) => Some(
            DeepLinkView {
                manga_id,
                chapter_id: match segment {
                    Some(s) => Some(chapter_of(s)),
                    None => None,
                },
            },
        ),
        _ => None,
    }
}

/// The chapter that the last segment of an address names.
pub fn chapter_id_of(segment: &str) -> (id: String)
    ensures
        id@ == chapter_of(segment@),
{
    if crate::text::same_text(segment, "?start") {
        return String::from_str("1");
    }
    let mut id = String::new();
    proof {
        segment@.take(0).lemma_filter_len(is_no_slash());
    }
    for c in it: segment.chars()
        invariant
            it.seq() == segment@,
            id@ == segment@.take(it.index() as int).filter(is_no_slash()),
    {
        proof {
            let seen = segment@.take(it.index() as int);
            assert(segment@.take(it.index() + 1) == seen.push(c));
            seen.lemma_filter_push(c, is_no_slash());
        }
        if c != '/' {
            id.push(c);
        }
    }
    assert(segment@.take(segment@.len() as int) == segment@);
    id
}

/// The link that the captured groups of an address stand for.
pub fn deep_link_from(found: Option<(Option<String>, Option<String>)>) -> (link: Option<DeepLink>)
    ensures
        link_view(link) == deep_link_of(group_texts(found)),
{
    match found {
        Some((Some(manga_id), segment)) => {
            let chapter_id = match segment {
                Some(s) => Some(chapter_id_of(s.as_str())),
                None => None,
            };
            Some(DeepLink { manga_id, chapter_id })
        },
        _ => None,
    }
}

/// The mark `?start` names the first chapter, and a number followed by a
/// slash names the chapter of that number.
pub proof fn law_segments_name_chapters(number: Seq<char>)
    requires
        forall|i: int| 0 <= i < number.len() ==> number[i] != '/',
    ensures
        chapter_of("?start"@) == "1"@,
        chapter_of(number.push('/')) == number,
{
    reveal_strlit("?start");
    let segment = number.push('/');
    assert(segment != "?start"@) by {
        if segment.len() == 6 {
            assert(segment[5] == '/');
            assert("?start"@[5] == 't');
        }
    }
    number.lemma_filter_push('/', is_no_slash());
    lemma_filter_keeps_all(number);
}

/// A text without a slash loses nothing when its slashes are taken out.
proof fn lemma_filter_keeps_all(text: Seq<char>)
    requires
        forall|i: int| 0 <= i < text.len() ==> text[i] != '/',
    ensures
        text.filter(is_no_slash()) == text,
    decreases text.len(),
{
    if text.len() > 0 {
        let front = text.drop_last();
        lemma_filter_keeps_all(front);
        front.lemma_filter_push(text.last(), is_no_slash());
        assert(front.push(text.last()) == text);
    } else {
        text.lemma_filter_len(is_no_slash());
        assert(text.filter(is_no_slash()) =~= text);
    }
}

/// Matches an address against a pattern that names the groups `manga_id`
/// and `chapter_id`: no link where the pattern does not match, else the
/// manga and the chapter that the two groups stand for. It fails exactly
/// where the pattern engine rejects the pattern.
pub fn match_deep_link(pattern: &str, url: &str) -> (result: Result<Option<DeepLink>, SourceError>)
    ensures
        result is Ok <==> regex_compiles(pattern@),
        result matches Ok(link) ==> link_view(link) == deep_link_of(
            regex_captures(pattern@, "manga_id"@, "chapter_id"@, url@),
        ),
        result matches Err(e) ==> e == SourceError::InvalidPattern,
{
    match captures(pattern, "manga_id", "chapter_id", url) {
        Ok(found) => Ok(deep_link_from(found)),
        Err(_) => Err(SourceError::InvalidPattern),
    }
}

/// Resolves an address of the site: to no link where it has not the shape
/// of one, else to the manga it names and the chapter, if it names one.
/// It fails only where the pattern engine rejects the pattern of deep links.
pub fn handle_url(url: &str) -> (result: Result<Option<DeepLink>, SourceError>)
    ensures
        result is Ok <==> regex_compiles(deep_link_pattern()),
        result matches Ok(link) ==> link_view(link) == deep_link_of(
            regex_captures(deep_link_pattern(), "manga_id"@, "chapter_id"@, url@),
        ),
        result matches Err(e) ==> e == SourceError::InvalidPattern,
{
    match_deep_link(r"^https:\/\/[^/]+\/(?<manga_id>\d+)\/(?<chapter_id>(\d+\/|\?start))?$", url)
}

} // verus!
