use audiobookshelf_discord_rpc::caption::{
    caption, display_lines, is_podcast, podcast_caption, primary_genre,
};
use audiobookshelf_discord_rpc::chapter::{
    chapter_caption, chapter_label, chapter_word_list, find_chapter, has_chapter_prefix,
    starts_with_chapter_word,
};
use audiobookshelf_discord_rpc::session::{Chapter, LibraryItem, MediaMetadata, Session};

fn s(text: &str) -> Option<String> {
    Some(text.to_string())
}

fn book_meta(genres: &[&str]) -> MediaMetadata {
    MediaMetadata {
        genres: genres.iter().map(|g| g.to_string()).collect(),
        podcast_title: None,
        title: None,
        season: None,
        episode: None,
    }
}

fn two_chapters() -> Vec<Chapter> {
    vec![
        Chapter { title: "Intro".to_string(), start_ms: 0, end_ms: 120_000 },
        Chapter { title: "Chapter 2".to_string(), start_ms: 120_000, end_ms: 600_000 },
    ]
}

fn book_item(chapters: Vec<Chapter>) -> LibraryItem {
    LibraryItem { chapters, media_type: s("book"), title: None }
}

fn session(meta: MediaMetadata) -> Session {
    Session {
        display_title: "Episode 12: The Long Road".to_string(),
        display_author: "Jane Doe".to_string(),
        current_time_ms: 45_000,
        duration_ms: 600_000,
        media_metadata: meta,
        library_item_id: "li_1".to_string(),
    }
}

#[test]
fn chapter_caption_gets_a_prefix_when_the_title_has_none() {
    let item = book_item(two_chapters());
    assert_eq!(caption(&book_meta(&["Fantasy"]), &item, true, 45_000), "Chapter Intro");
}

#[test]
fn chapter_caption_is_not_prefixed_twice() {
    let item = book_item(two_chapters());
    assert_eq!(caption(&book_meta(&["Fantasy"]), &item, true, 150_000), "Chapter 2");
}

#[test]
fn chapter_on_a_shared_boundary_is_the_first_that_holds_it() {
    let chapters = two_chapters();
    assert_eq!(find_chapter(&chapters, 120_000), Some(0));
    assert_eq!(find_chapter(&chapters, 120_001), Some(1));
    assert_eq!(find_chapter(&chapters, 0), Some(0));
    assert_eq!(find_chapter(&chapters, 600_000), Some(1));
    assert_eq!(find_chapter(&chapters, 600_001), None);
    assert_eq!(find_chapter(&chapters, -1), None);
    assert_eq!(find_chapter(&Vec::new(), 0), None);
}

#[test]
fn caption_falls_back_to_the_genre_outside_every_chapter() {
    let item = book_item(two_chapters());
    assert_eq!(caption(&book_meta(&["Fantasy", "Epic"]), &item, true, 700_000), "Fantasy");
    assert_eq!(caption(&book_meta(&[]), &item, true, 700_000), "Unknown Genre");
}

#[test]
fn caption_ignores_chapters_unless_enabled() {
    let item = book_item(two_chapters());
    assert_eq!(caption(&book_meta(&["Fantasy"]), &item, false, 45_000), "Fantasy");
    assert_eq!(caption(&book_meta(&[]), &item, false, 45_000), "Unknown Genre");
}

#[test]
fn primary_genre_is_the_first_tag_or_the_placeholder() {
    assert_eq!(primary_genre(&vec!["Sci-Fi".to_string(), "Classic".to_string()]), "Sci-Fi");
    assert_eq!(primary_genre(&Vec::new()), "Unknown Genre");
}

#[test]
fn podcast_caption_with_season_and_episode() {
    assert_eq!(podcast_caption("Daily News", &s("2"), &s("5")), "Daily News - S2E5");
    let meta = MediaMetadata {
        genres: vec!["News".to_string()],
        podcast_title: s("Daily News"),
        title: None,
        season: s("2"),
        episode: s("5"),
    };
    let item = LibraryItem { chapters: two_chapters(), media_type: s("podcast"), title: None };
    assert_eq!(caption(&meta, &item, true, 45_000), "Daily News - S2E5");
}

#[test]
fn podcast_caption_with_episode_only() {
    assert_eq!(podcast_caption("Daily News", &None, &s("5")), "Daily News - Episode 5");
    assert_eq!(podcast_caption("Daily News", &s(""), &s("5")), "Daily News - Episode 5");
}

#[test]
fn podcast_caption_without_episode_is_the_name() {
    assert_eq!(podcast_caption("Daily News", &None, &None), "Daily News");
    assert_eq!(podcast_caption("Daily News", &s("2"), &None), "Daily News");
    assert_eq!(podcast_caption("Daily News", &s("2"), &s("")), "Daily News");
    assert_eq!(podcast_caption("Daily News", &s(""), &s("")), "Daily News");
}

#[test]
fn podcast_without_podcast_title_shows_the_genre() {
    let item = LibraryItem { chapters: two_chapters(), media_type: s("podcast"), title: None };
    assert_eq!(caption(&book_meta(&["News"]), &item, true, 45_000), "News");
}

#[test]
fn podcast_is_told_by_media_type_or_podcast_title() {
    let podcast = LibraryItem { chapters: Vec::new(), media_type: s("podcast"), title: None };
    let book = book_item(Vec::new());
    let untyped = LibraryItem { chapters: Vec::new(), media_type: None, title: None };
    let mut named = book_meta(&[]);
    named.podcast_title = s("Daily News");
    assert!(is_podcast(&book_meta(&[]), &podcast));
    assert!(!is_podcast(&book_meta(&[]), &book));
    assert!(!is_podcast(&book_meta(&[]), &untyped));
    assert!(is_podcast(&named, &book));
    assert!(is_podcast(&named, &untyped));
    let shouting = LibraryItem { chapters: Vec::new(), media_type: s("Podcast"), title: None };
    assert!(!is_podcast(&book_meta(&[]), &shouting));
}

#[test]
fn book_lines_are_title_and_author() {
    let lines = display_lines(&session(book_meta(&[])), &book_item(Vec::new()));
    assert_eq!(lines, ("Episode 12: The Long Road".to_string(), "Jane Doe".to_string()));
}

#[test]
fn podcast_lines_prefer_the_podcast_name_over_the_episode_title() {
    let item = LibraryItem { chapters: Vec::new(), media_type: s("podcast"), title: s("Item") };
    let mut meta = book_meta(&[]);
    meta.podcast_title = s("Daily News");
    let lines = display_lines(&session(meta.clone()), &item);
    assert_eq!(lines, ("Daily News".to_string(), "Episode 12: The Long Road".to_string()));
    meta.title = s("Own Title");
    let lines = display_lines(&session(meta), &item);
    assert_eq!(lines, ("Own Title".to_string(), "Episode 12: The Long Road".to_string()));
}

#[test]
fn podcast_lines_fall_back_to_the_item_title_then_to_the_session() {
    let item = LibraryItem { chapters: Vec::new(), media_type: s("podcast"), title: s("Item") };
    let lines = display_lines(&session(book_meta(&[])), &item);
    assert_eq!(lines, ("Item".to_string(), "Episode 12: The Long Road".to_string()));
    let bare = LibraryItem { chapters: Vec::new(), media_type: s("podcast"), title: None };
    let lines = display_lines(&session(book_meta(&[])), &bare);
    assert_eq!(lines, ("Episode 12: The Long Road".to_string(), "Jane Doe".to_string()));
}

#[test]
fn chapter_prefix_is_recognised_in_any_case() {
    assert!(has_chapter_prefix("Chapter 2"));
    assert!(has_chapter_prefix("CHAPTER 2"));
    assert!(has_chapter_prefix("chapter-2"));
    assert!(has_chapter_prefix("Ch. 1"));
    assert!(has_chapter_prefix("Part 1"));
    assert!(has_chapter_prefix("Kapitel 7"));
    assert!(has_chapter_prefix("CAP\u{cd}TULO 3"));
    assert!(has_chapter_prefix("Rozdzia\u{141} 4"));
    assert!(has_chapter_prefix("\u{413}\u{41b}\u{410}\u{412}\u{410} 5"));
    assert!(has_chapter_prefix("\u{7b2c} 1"));
    assert!(has_chapter_prefix("B\u{d6}L\u{dc}M-2"));
}

#[test]
fn chapter_prefix_needs_a_separator_after_the_word() {
    assert!(!has_chapter_prefix("Intro"));
    assert!(!has_chapter_prefix("Chapter"));
    assert!(!has_chapter_prefix("Chapter2"));
    assert!(!has_chapter_prefix("Chapterhouse Dune"));
    assert!(!has_chapter_prefix("Chapter\t2"));
    assert!(!has_chapter_prefix(" Chapter 2"));
    assert!(!has_chapter_prefix("The Chapter 2"));
    assert!(!has_chapter_prefix(""));
    assert!(!has_chapter_prefix("\u{7b2c}1\u{7ae0}"));
}

#[test]
fn chapter_word_check_expects_lowercase() {
    assert!(starts_with_chapter_word("chapter 2"));
    assert!(!starts_with_chapter_word("Chapter 2"));
    assert!(starts_with_chapter_word("teil.3"));
    assert!(starts_with_chapter_word("ch-3"));
    assert!(!starts_with_chapter_word("cha 3"));
}

#[test]
fn chapter_words_are_the_fixed_list() {
    let words = chapter_word_list();
    assert_eq!(words.len(), 26);
    assert_eq!(words[0], "chapter");
    assert_eq!(words[9], "cap\u{ed}tulo");
    assert_eq!(words[15], "\u{7ae0}");
    assert_eq!(words[25], "teil");
    for w in words {
        assert_eq!(w.to_lowercase(), w);
    }
}

#[test]
fn chapter_label_follows_the_verdict_it_is_given() {
    assert_eq!(chapter_label("Intro", false), "Chapter Intro");
    assert_eq!(chapter_label("Intro", true), "Intro");
    assert_eq!(chapter_label("", false), "Chapter ");
    assert_eq!(chapter_caption("Hoofdstuk 3"), "Hoofdstuk 3");
    assert_eq!(chapter_caption("Prologue"), "Chapter Prologue");
}
