//! Chapter captions: which chapter a position falls in, and how its title is
//! shown.

use vstd::prelude::*;
use vstd::string::*;
use crate::session::{Chapter, ChapterView, chapter_views};
use crate::text::{chars_of, has_prefix, lowercase_of, matches_at, to_lowercase};

verus! {

/// The recognised chapter words, in lowercase, in the order in which they
/// are tried.
pub open spec fn chapter_words() -> Seq<Seq<char>> {
    seq![
        "chapter"@,
        "chap"@,
        "ch"@,
        "hoofdstuk"@,
        "hfdst"@,
        "kapitel"@,
        "kap"@,
        "chapitre"@,
        "capitulo"@,
        "capítulo"@,
        "cap"@,
        "capitolo"@,
        "rozdział"@,
        "rozd"@,
        "глава"@,
        "章"@,
        "第"@,
        "luku"@,
        "poglavlje"@,
        "fejezet"@,
        "bölüm"@,
        "part"@,
        "partie"@,
        "parte"@,
        "deel"@,
        "teil"@,
    ]
}

/// The characters that may follow a chapter word.
pub open spec fn is_separator(c: char) -> bool {
    c == ' ' || c == '.' || c == '-'
}

/// `s` begins with `word` followed directly by a separator.
pub open spec fn word_then_separator(s: Seq<char>, word: Seq<char>) -> bool {
    &&& has_prefix(s, word)
    &&& s.len() > word.len()
    &&& is_separator(s[word.len() as int])
}

/// `s` begins with one of the chapter words followed by a separator.
pub open spec fn begins_with_chapter_word(s: Seq<char>) -> bool {
    exists|i: int|
        0 <= i < chapter_words().len() && word_then_separator(s, #[trigger] chapter_words()[i])
}

/// The chapter words as strings.
pub fn chapter_word_list() -> (v: Vec<&'static str>)
    ensures
        v@.len() == chapter_words().len(),
        forall|i: int| 0 <= i < v@.len() ==> (#[trigger] v@[i])@ == chapter_words()[i],
{
    vec![
        "chapter",
        "chap",
        "ch",
        "hoofdstuk",
        "hfdst",
        "kapitel",
        "kap",
        "chapitre",
        "capitulo",
        "capítulo",
        "cap",
        "capitolo",
        "rozdział",
        "rozd",
        "глава",
        "章",
        "第",
        "luku",
        "poglavlje",
        "fejezet",
        "bölüm",
        "part",
        "partie",
        "parte",
        "deel",
        "teil",
    ]
}

/// Whether `lowered`, a title already in lowercase, begins with a chapter
/// word followed by a space, a full stop or a hyphen.
pub fn starts_with_chapter_word(lowered: &str) -> (b: bool)
    ensures
        b == begins_with_chapter_word(lowered@),
{
    let s = chars_of(lowered);
    let words = chapter_word_list();
    let mut i: usize = 0;
    while i < words.len()
        invariant
            i <= words@.len(),
            s@ == lowered@,
            words@.len() == chapter_words().len(),
            forall|j: int| 0 <= j < words@.len() ==> (#[trigger] words@[j])@ == chapter_words()[j],
            forall|j: int| 0 <= j < i ==> !word_then_separator(s@, #[trigger] chapter_words()[j]),
        decreases words@.len() - i,
    {
        let w = chars_of(words[i]);
        if matches_at(&s, &w, 0) && s.len() > w.len() {
            let next = s[w.len()];
            if next == ' ' || next == '.' || next == '-' {
                assert(word_then_separator(s@, chapter_words()[i as int]));
                return true;
            }
        }
        i += 1;
    }
    false
}

/// Whether `title` already carries a recognised chapter word: its lowercase
/// form begins with one of the chapter words followed by a space, a full
/// stop or a hyphen.
pub fn has_chapter_prefix(title: &str) -> (b: bool)
    ensures
        b == begins_with_chapter_word(lowercase_of(title@)),
{
    let lowered = to_lowercase(title);
    starts_with_chapter_word(lowered.as_str())
}

/// `position` lies within the chapter's window, both ends included.
pub open spec fn in_window(c: ChapterView, position: int) -> bool {
    c.start_ms <= position <= c.end_ms
}

/// Index of the first chapter at or after `from` whose window holds
/// `position`.
pub open spec fn chapter_at(chapters: Seq<ChapterView>, position: int, from: int) -> Option<int>
    decreases chapters.len() - from,
{
    if from < 0 || from >= chapters.len() {
        None
    } else if in_window(chapters[from], position) {
        Some(from)
    } else {
        chapter_at(chapters, position, from + 1)
    }
}

/// What `chapter_at` finds holds the position and is the first chapter to do
/// so; when it finds nothing, no chapter holds the position.
pub proof fn lemma_chapter_at(chapters: Seq<ChapterView>, position: int, from: int)
    requires
        0 <= from,
    ensures
        match chapter_at(chapters, position, from) {
            Some(i) => from <= i < chapters.len() && in_window(chapters[i], position) && forall|
                j: int,
            | from <= j < i ==> !in_window(#[trigger] chapters[j], position),
            None => forall|j: int|
                from <= j < chapters.len() ==> !in_window(#[trigger] chapters[j], position),
        },
    decreases chapters.len() - from,
{
    if from < chapters.len() && !in_window(chapters[from], position) {
        lemma_chapter_at(chapters, position, from + 1);
    }
}

/// Index of the first chapter whose window holds `position_ms`.
pub fn find_chapter(chapters: &Vec<Chapter>, position_ms: i64) -> (r: Option<usize>)
    ensures
        match r {
            Some(i) => i < chapters@.len() && chapter_at(
                chapter_views(chapters@),
                position_ms as int,
                0,
            ) == Some(i as int) && in_window(chapters@[i as int]@, position_ms as int) && forall|
                j: int,
            | 0 <= j < i ==> !in_window(#[trigger] chapters@[j]@, position_ms as int),
            None => chapter_at(chapter_views(chapters@), position_ms as int, 0) is None && forall|
                j: int,
            | 0 <= j < chapters@.len() ==> !in_window(#[trigger] chapters@[j]@, position_ms as int),
        },
{
    let mut i: usize = 0;
    while i < chapters.len()
        invariant
            i <= chapters@.len(),
            chapter_at(chapter_views(chapters@), position_ms as int, 0) == chapter_at(
                chapter_views(chapters@),
                position_ms as int,
                i as int,
            ),
        decreases chapters@.len() - i,
    {
        let c = &chapters[i];
        if c.start_ms <= position_ms && position_ms <= c.end_ms {
            proof {
                lemma_find_chapter(chapters@, position_ms as int);
            }
            return Some(i);
        }
        i += 1;
    }
    proof {
        lemma_find_chapter(chapters@, position_ms as int);
    }
    None
}

proof fn lemma_find_chapter(chapters: Seq<Chapter>, position: int)
    ensures
        match chapter_at(chapter_views(chapters), position, 0) {
            Some(i) => 0 <= i < chapters.len() && in_window(chapters[i]@, position) && forall|j: int|
                0 <= j < i ==> !in_window(#[trigger] chapters[j]@, position),
            None => forall|j: int|
                0 <= j < chapters.len() ==> !in_window(#[trigger] chapters[j]@, position),
        },
{
    let views = chapter_views(chapters);
    lemma_chapter_at(views, position, 0);
    assert forall|j: int| 0 <= j < chapters.len() implies views[j] == (#[trigger] chapters[j])@ by {}
    match chapter_at(views, position, 0) {
        Some(i) => {
            assert forall|j: int| 0 <= j < i implies !in_window(#[trigger] chapters[j]@, position) by {
                assert(!in_window(views[j], position));
            }
        },
        None => {
            assert forall|j: int| 0 <= j < chapters.len() implies !in_window(
                #[trigger] chapters[j]@,
                position,
            ) by {
                assert(!in_window(views[j], position));
            }
        },
    }
}

/// How a chapter title is shown: as it is when it already carries a chapter
/// word, behind `Chapter ` otherwise.
pub open spec fn chapter_label_of(title: Seq<char>, prefixed: bool) -> Seq<char> {
    if prefixed {
        title
    } else {
        "Chapter "@ + title
    }
}

/// The caption for a chapter titled `title`, given whether the title already
/// carries a chapter word.
pub fn chapter_label(title: &str, prefixed: bool) -> (r: String)
    ensures
        r@ == chapter_label_of(title@, prefixed),
{
    if prefixed {
        String::from_str(title)
    } else {
        let mut r = String::from_str("Chapter ");
        r.append(title);
        r
    }
}

/// The caption for a chapter titled `title`.
pub fn chapter_caption(title: &str) -> (r: String)
    ensures
        r@ == chapter_label_of(title@, begins_with_chapter_word(lowercase_of(title@))),
{
    chapter_label(title, has_chapter_prefix(title))
}

} // verus!
