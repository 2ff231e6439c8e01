//! What the catalogue knows of one manga.

use crate::text::texts;
use vstd::prelude::*;

verus! {

/// Whether a manga is still being published.
#[derive(Debug, Clone, Copy, PartialEq, Eq, Structural)]
pub enum MangaStatus {
    Unknown,
    Ongoing,
    Completed,
}

/// Whether a manga is fit for every reader.
#[derive(Debug, Clone, Copy, PartialEq, Eq, Structural)]
pub enum ContentRating {
    Safe,
    Nsfw,
}

/// How the pages of a manga are laid out for reading.
#[derive(Debug, Clone, Copy, PartialEq, Eq, Structural)]
pub enum Viewer {
    /// Page by page, the reader's default.
    Paged,
    /// One long strip.
    Scroll,
}

/// One manga, as a listing or its detail page shows it.
#[derive(Debug, Clone, PartialEq, Eq)]
pub struct Manga {
    pub id: String,
    pub cover: String,
    pub title: String,
    pub author: String,
    pub description: String,
    pub url: String,
    pub categories: Vec<String>,
    pub status: MangaStatus,
    pub nsfw: ContentRating,
    pub viewer: Viewer,
}

/// The mathematical content of a [`Manga`].
pub struct MangaView {
    pub id: Seq<char>,
    pub cover: Seq<char>,
    pub title: Seq<char>,
    pub author: Seq<char>,
    pub description: Seq<char>,
    pub url: Seq<char>,
    pub categories: Seq<Seq<char>>,
    pub status: MangaStatus,
    pub nsfw: ContentRating,
    pub viewer: Viewer,
}

impl View for Manga {
    type V = MangaView;

    open spec fn view(&self) -> MangaView {
        MangaView {
            id: self.id@,
            cover: self.cover@,
            title: self.title@,
            author: self.author@,
            description: self.description@,
            url: self.url@,
            categories: texts(self.categories@),
            status: self.status,
            nsfw: self.nsfw,
            viewer: self.viewer,
        }
    }
}

/// The mangas of a list, each by its content.
pub open spec fn manga_views(mangas: Seq<Manga>) -> Seq<MangaView> {
    mangas.map_values(|m: Manga| m@)
}

} // verus!
