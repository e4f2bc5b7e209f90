//! The data the engine reads each tick: the listening session, the item
//! detail with its chapters, and the configuration.
//!
//! Media times are integer milliseconds. Each type has a mathematical view in
//! which every string is the sequence of its characters.

use vstd::prelude::*;

verus! {

/// View of an optional string.
pub open spec fn opt_text(o: Option<String>) -> Option<Seq<char>> {
    match o {
        Some(s) => Some(s@),
        None => None,
    }
}

/// View of a list of strings.
pub open spec fn texts(v: Seq<String>) -> Seq<Seq<char>> {
    Seq::new(v.len(), |i: int| v[i]@)
}

/// Metadata attached to a session.
#[derive(Clone, Debug, PartialEq, Eq)]
pub struct MediaMetadata {
    pub genres: Vec<String>,
    pub podcast_title: Option<String>,
    pub title: Option<String>,
    pub season: Option<String>,
    pub episode: Option<String>,
}

pub struct MediaMetadataView {
    pub genres: Seq<Seq<char>>,
    pub podcast_title: Option<Seq<char>>,
    pub title: Option<Seq<char>>,
    pub season: Option<Seq<char>>,
    pub episode: Option<Seq<char>>,
}

impl View for MediaMetadata {
    type V = MediaMetadataView;

    open spec fn view(&self) -> MediaMetadataView {
        MediaMetadataView {
            genres: texts(self.genres@),
            podcast_title: opt_text(self.podcast_title),
            title: opt_text(self.title),
            season: opt_text(self.season),
            episode: opt_text(self.episode),
        }
    }
}

/// The server's snapshot of the current listening activity.
#[derive(Clone, Debug, PartialEq, Eq)]
pub struct Session {
    pub display_title: String,
    pub display_author: String,
    pub current_time_ms: i64,
    pub duration_ms: u64,
    pub media_metadata: MediaMetadata,
    pub library_item_id: String,
}

pub struct SessionView {
    pub display_title: Seq<char>,
    pub display_author: Seq<char>,
    pub current_time_ms: i64,
    pub duration_ms: u64,
    pub media_metadata: MediaMetadataView,
    pub library_item_id: Seq<char>,
}

impl View for Session {
    type V = SessionView;

    open spec fn view(&self) -> SessionView {
        SessionView {
            display_title: self.display_title@,
            display_author: self.display_author@,
            current_time_ms: self.current_time_ms,
            duration_ms: self.duration_ms,
            media_metadata: self.media_metadata@,
            library_item_id: self.library_item_id@,
        }
    }
}

/// One chapter of an item: its title and its window of media time.
#[derive(Clone, Debug, PartialEq, Eq)]
pub struct Chapter {
    pub title: String,
    pub start_ms: i64,
    pub end_ms: i64,
}

pub struct ChapterView {
    pub title: Seq<char>,
    pub start_ms: i64,
    pub end_ms: i64,
}

impl View for Chapter {
    type V = ChapterView;

    open spec fn view(&self) -> ChapterView {
        ChapterView { title: self.title@, start_ms: self.start_ms, end_ms: self.end_ms }
    }
}

/// View of a chapter list.
pub open spec fn chapter_views(v: Seq<Chapter>) -> Seq<ChapterView> {
    Seq::new(v.len(), |i: int| v[i]@)
}

/// Item detail as the server reports it.
#[derive(Clone, Debug, PartialEq, Eq)]
pub struct LibraryItem {
    pub chapters: Vec<Chapter>,
    pub media_type: Option<String>,
    pub title: Option<String>,
}

pub struct LibraryItemView {
    pub chapters: Seq<ChapterView>,
    pub media_type: Option<Seq<char>>,
    pub title: Option<Seq<char>>,
}

impl View for LibraryItem {
    type V = LibraryItemView;

    open spec fn view(&self) -> LibraryItemView {
        LibraryItemView {
            chapters: chapter_views(self.chapters@),
            media_type: opt_text(self.media_type),
            title: opt_text(self.title),
        }
    }
}

/// The configuration the engine runs under.
#[derive(Clone, Debug, PartialEq, Eq)]
pub struct Config {
    pub discord_client_id: String,
    pub audiobookshelf_url: String,
    pub audiobookshelf_token: String,
    pub show_chapters: Option<bool>,
    pub use_abs_cover: Option<bool>,
    pub imgur_client_id: Option<String>,
}

impl Config {
    /// Whether chapter titles are wanted as captions (off unless set).
    pub open spec fn wants_chapters(&self) -> bool {
        self.show_chapters == Some(true)
    }

    /// Whether covers are to be re-hosted rather than linked from the
    /// library server (on unless `use_abs_cover` is set).
    pub open spec fn wants_rehosting(&self) -> bool {
        self.use_abs_cover != Some(true)
    }

    /// Whether chapter titles are wanted as captions.
    pub fn chapters_enabled(&self) -> (b: bool)
        ensures
            b == self.wants_chapters(),
    {
        match self.show_chapters {
            Some(b) => b,
            None => false,
        }
    }

    /// Whether covers are to be re-hosted.
    pub fn rehosting_enabled(&self) -> (b: bool)
        ensures
            b == self.wants_rehosting(),
    {
        match self.use_abs_cover {
            Some(b) => !b,
            None => true,
        }
    }
}

} // verus!
