//! What a presence shows in words: its two lines and the caption of its
//! artwork.

use vstd::prelude::*;
use vstd::string::*;
use crate::chapter::{
    begins_with_chapter_word,
    chapter_at,
    chapter_caption,
    chapter_label_of,
    find_chapter,
};
use crate::session::{
    LibraryItem,
    LibraryItemView,
    MediaMetadata,
    MediaMetadataView,
    Session,
    SessionView,
};
use crate::text::lowercase_of;

verus! {

/// An item is a podcast when the server says so or when its session names a
/// podcast.
pub open spec fn is_podcast_of(media_type: Option<Seq<char>>, podcast_title: Option<Seq<char>>) -> bool {
    media_type == Some("podcast"@) || podcast_title is Some
}

/// The first genre tag, or the placeholder when there is none.
pub open spec fn primary_genre_of(genres: Seq<Seq<char>>) -> Seq<char> {
    if genres.len() > 0 {
        genres[0]
    } else {
        "Unknown Genre"@
    }
}

/// A field that is there and not empty.
pub open spec fn is_present(field: Option<Seq<char>>) -> bool {
    field matches Some(s) && s.len() > 0
}

/// Caption of a podcast episode: the podcast's name with season and episode,
/// with the episode alone when no season is known, or on its own when no
/// episode is known.
pub open spec fn podcast_caption_of(
    name: Seq<char>,
    season: Option<Seq<char>>,
    episode: Option<Seq<char>>,
) -> Seq<char> {
    if is_present(season) && is_present(episode) {
        name + " - S"@ + season->0 + "E"@ + episode->0
    } else if is_present(episode) {
        name + " - Episode "@ + episode->0
    } else {
        name
    }
}

/// The caption, by precedence: podcast metadata, then the chapter that holds
/// `position` when chapters are to be shown, then the primary genre.
pub open spec fn caption_of(
    meta: MediaMetadataView,
    item: LibraryItemView,
    show_chapters: bool,
    position: int,
) -> Seq<char> {
    if is_podcast_of(item.media_type, meta.podcast_title) {
        match meta.podcast_title {
            Some(name) => podcast_caption_of(name, meta.season, meta.episode),
            None => primary_genre_of(meta.genres),
        }
    } else if show_chapters {
        match chapter_at(item.chapters, position, 0) {
            Some(i) => chapter_label_of(
                item.chapters[i].title,
                begins_with_chapter_word(lowercase_of(item.chapters[i].title)),
            ),
            None => primary_genre_of(meta.genres),
        }
    } else {
        primary_genre_of(meta.genres)
    }
}

/// The name a podcast goes by: the session's own title field, else its
/// podcast title, else the title of the item.
pub open spec fn podcast_name_of(meta: MediaMetadataView, item: LibraryItemView) -> Option<Seq<char>> {
    if meta.title is Some {
        meta.title
    } else if meta.podcast_title is Some {
        meta.podcast_title
    } else {
        item.title
    }
}

/// The primary and secondary line. A podcast with a known name shows that
/// name above the episode's title; everything else shows the session's title
/// above its author.
pub open spec fn display_lines_of(session: SessionView, item: LibraryItemView) -> (
    Seq<char>,
    Seq<char>,
) {
    if is_podcast_of(item.media_type, session.media_metadata.podcast_title) {
        match podcast_name_of(session.media_metadata, item) {
            Some(name) => (name, session.display_title),
            None => (session.display_title, session.display_author),
        }
    } else {
        (session.display_title, session.display_author)
    }
}

/// Whether the item is a podcast.
pub fn is_podcast(meta: &MediaMetadata, item: &LibraryItem) -> (b: bool)
    ensures
        b == is_podcast_of(item@.media_type, meta@.podcast_title),
{
    if meta.podcast_title.is_some() {
        return true;
    }
    match &item.media_type {
        Some(kind) => {
            let podcast = String::from_str("podcast");
            *kind == podcast
        },
        None => false,
    }
}

/// The first genre tag, or `Unknown Genre`.
pub fn primary_genre(genres: &Vec<String>) -> (r: String)
    ensures
        r@ == primary_genre_of(crate::session::texts(genres@)),
{
    if genres.len() > 0 {
        genres[0].clone()
    } else {
        String::from_str("Unknown Genre")
    }
}

/// Whether an optional field is there and not empty.
pub fn present(field: &Option<String>) -> (b: bool)
    ensures
        b == is_present(crate::session::opt_text(*field)),
{
    match field {
        Some(s) => s.as_str().unicode_len() > 0,
        None => false,
    }
}

/// Caption of a podcast episode.
pub fn podcast_caption(name: &str, season: &Option<String>, episode: &Option<String>) -> (r: String)
    ensures
        r@ == podcast_caption_of(
            name@,
            crate::session::opt_text(*season),
            crate::session::opt_text(*episode),
        ),
{
    let mut r = String::from_str(name);
    match episode {
        Some(e) => {
            if e.as_str().unicode_len() > 0 {
                if present(season) {
                    match season {
                        Some(s) => {
                            r.append(" - S");
                            r.append(s.as_str());
                            r.append("E");
                            r.append(e.as_str());
                        },
                        None => {},
                    }
                } else {
                    r.append(" - Episode ");
                    r.append(e.as_str());
                }
            }
            r
        },
        None => r,
    }
}

/// Picks the caption for a session at `position_ms`.
pub fn caption(meta: &MediaMetadata, item: &LibraryItem, show_chapters: bool, position_ms: i64) -> (r:
    String)
    ensures
        r@ == caption_of(meta@, item@, show_chapters, position_ms as int),
{
    if is_podcast(meta, item) {
        match &meta.podcast_title {
            Some(name) => podcast_caption(name.as_str(), &meta.season, &meta.episode),
            None => primary_genre(&meta.genres),
        }
    } else if show_chapters {
        match find_chapter(&item.chapters, position_ms) {
            Some(i) => chapter_caption(item.chapters[i].title.as_str()),
            None => primary_genre(&meta.genres),
        }
    } else {
        primary_genre(&meta.genres)
    }
}

/// The primary and secondary line for a session.
pub fn display_lines(session: &Session, item: &LibraryItem) -> (r: (String, String))
    ensures
        (r.0@, r.1@) == display_lines_of(session@, item@),
{
    if is_podcast(&session.media_metadata, item) {
        let name = match &session.media_metadata.title {
            Some(t) => Some(t.clone()),
            None => match &session.media_metadata.podcast_title {
                Some(t) => Some(t.clone()),
                None => match &item.title {
                    Some(t) => Some(t.clone()),
                    None => None,
                },
            },
        };
        match name {
            Some(n) => (n, session.display_title.clone()),
            None => (session.display_title.clone(), session.display_author.clone()),
        }
    } else {
        (session.display_title.clone(), session.display_author.clone())
    }
}

} // verus!
