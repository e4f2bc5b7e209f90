//! Search titles: the normalised form of a book title that is sent to the
//! metadata providers.

use vstd::prelude::*;
use vstd::string::*;
use crate::text::{char_is_numeric, chars_of, is_numeric, matches_at, occurs_at, trim, trimmed};

verus! {

/// The characters at which subtitle decoration begins.
pub open spec fn is_title_delimiter(c: char) -> bool {
    c == ':' || c == '('
}

/// Index of the first delimiter at or after `from` (`s.len()` when there is
/// none).
pub open spec fn delimiter_index(s: Seq<char>, from: int) -> int
    decreases s.len() - from,
{
    if 0 <= from < s.len() && !is_title_delimiter(s[from]) {
        delimiter_index(s, from + 1)
    } else {
        from
    }
}

/// The base title: what stands before the first `:` or `(`, without the
/// whitespace around it.
pub open spec fn base_title_of(title: Seq<char>) -> Seq<char> {
    trimmed(title.subrange(0, delimiter_index(title, 0)))
}

/// Index of the first character at or after `from` that is not numeric
/// (`s.len()` when there is none).
pub open spec fn number_end(s: Seq<char>, from: int) -> int
    decreases s.len() - from,
{
    if 0 <= from < s.len() && char_is_numeric(s[from]) {
        number_end(s, from + 1)
    } else {
        from
    }
}

/// `Book ` stands at `at` and is directly followed by a numeric character.
pub open spec fn is_marker_at(title: Seq<char>, at: int) -> bool {
    &&& occurs_at(title, "Book "@, at)
    &&& at + "Book "@.len() < title.len()
    &&& char_is_numeric(title[at + "Book "@.len()])
}

/// Position of the first series marker at or after `from`.
pub open spec fn first_marker(title: Seq<char>, from: int) -> Option<int>
    decreases title.len() - from,
{
    if from < 0 || from >= title.len() {
        None
    } else if is_marker_at(title, from) {
        Some(from)
    } else {
        first_marker(title, from + 1)
    }
}

/// The series marker of a title: `Book ` and the whole run of numeric
/// characters behind it, taken where `Book ` is first followed by a numeric
/// character. The run may end the title. A title in which no `Book ` is
/// followed by a numeric character has no marker.
pub open spec fn book_number_of(title: Seq<char>) -> Option<Seq<char>> {
    match first_marker(title, 0) {
        None => None,
        Some(at) => {
            let start = at + "Book "@.len();
            Some("Book "@ + title.subrange(start, number_end(title, start)))
        },
    }
}

/// What `first_marker` finds is a marker and none stands between `from` and
/// it; when it finds nothing, no marker stands at or after `from`.
pub proof fn lemma_first_marker(title: Seq<char>, from: int)
    requires
        0 <= from,
    ensures
        match first_marker(title, from) {
            Some(at) => from <= at && is_marker_at(title, at) && forall|j: int|
                from <= j < at ==> !is_marker_at(title, j),
            None => forall|j: int| from <= j ==> !is_marker_at(title, j),
        },
    decreases title.len() - from,
{
    if from < title.len() && !is_marker_at(title, from) {
        lemma_first_marker(title, from + 1);
    }
}

/// The run that `number_end` closes is numeric throughout and cannot be
/// extended: it ends at the end of the text or before a character that is
/// not numeric.
pub proof fn lemma_number_end(s: Seq<char>, from: int)
    requires
        0 <= from <= s.len(),
    ensures
        from <= number_end(s, from) <= s.len(),
        forall|k: int| from <= k < number_end(s, from) ==> char_is_numeric(#[trigger] s[k]),
        number_end(s, from) < s.len() ==> !char_is_numeric(s[number_end(s, from)]),
    decreases s.len() - from,
{
    if from < s.len() && char_is_numeric(s[from]) {
        lemma_number_end(s, from + 1);
    }
}

/// A title has a series marker exactly when some `Book ` in it is directly
/// followed by a numeric character. The marker is then `Book ` and a run of
/// one or more numeric characters: the whole run behind the first such
/// `Book `.
pub proof fn lemma_book_number(title: Seq<char>)
    ensures
        book_number_of(title) is Some <==> exists|at: int| is_marker_at(title, at),
        book_number_of(title) matches Some(marker) ==> {
            let at = first_marker(title, 0)->0;
            let start = at + "Book "@.len();
            let end = number_end(title, start);
            &&& is_marker_at(title, at)
            &&& forall|j: int| j < at ==> !is_marker_at(title, j)
            &&& start < end <= title.len()
            &&& marker == "Book "@ + title.subrange(start, end)
            &&& forall|k: int| start <= k < end ==> char_is_numeric(#[trigger] title[k])
            &&& end < title.len() ==> !char_is_numeric(title[end])
        },
{
    lemma_first_marker(title, 0);
    match first_marker(title, 0) {
        Some(at) => {
            lemma_number_end(title, at + "Book "@.len());
        },
        None => {},
    }
}

/// The title to search providers with: the base title, followed by a space
/// and the series marker when the title has one.
pub open spec fn search_title_of(title: Seq<char>) -> Seq<char> {
    match book_number_of(title) {
        Some(marker) => base_title_of(title) + " "@ + marker,
        None => base_title_of(title),
    }
}

/// Strips everything from the first `:` or `(` onward, and the whitespace
/// around what is left.
pub fn get_base_title(title: &str) -> (r: &str)
    ensures
        r@ == base_title_of(title@),
{
    let cs = chars_of(title);
    let n: usize = cs.len();
    let mut i: usize = 0;
    while i < n && !(cs[i] == ':' || cs[i] == '(')
        invariant
            n == cs@.len(),
            i <= n,
            delimiter_index(cs@, 0) == delimiter_index(cs@, i as int),
        decreases n - i,
    {
        i += 1;
    }
    trim(title.substring_char(0, i))
}

/// Position of the first series marker in `cs`, where `marker` holds the
/// characters of `Book `.
fn find_marker(cs: &Vec<char>, marker: &Vec<char>) -> (r: Option<usize>)
    requires
        marker@ == "Book "@,
    ensures
        match r {
            Some(at) => first_marker(cs@, 0) == Some(at as int) && is_marker_at(cs@, at as int),
            None => first_marker(cs@, 0) is None,
        },
{
    let n: usize = cs.len();
    let m: usize = marker.len();
    let mut at: usize = 0;
    while at < n
        invariant
            n == cs@.len(),
            m == marker@.len(),
            marker@ == "Book "@,
            at <= n,
            first_marker(cs@, 0) == first_marker(cs@, at as int),
        decreases n - at,
    {
        if matches_at(cs, marker, at) && m < n - at && is_numeric(cs[at + m]) {
            return Some(at);
        }
        at += 1;
    }
    None
}

/// End of the run of numeric characters that begins at `start`.
fn numeric_run_end(cs: &Vec<char>, start: usize) -> (end: usize)
    requires
        start <= cs@.len(),
    ensures
        end == number_end(cs@, start as int),
        start <= end <= cs@.len(),
{
    let n: usize = cs.len();
    let mut end: usize = start;
    while end < n && is_numeric(cs[end])
        invariant
            n == cs@.len(),
            start <= end <= n,
            number_end(cs@, start as int) == number_end(cs@, end as int),
        decreases n - end,
    {
        end += 1;
    }
    end
}

/// The `Book N` marker of a title, if it has one: `Book ` and the whole run
/// of numeric characters behind it, taken where `Book ` is first followed
/// by a numeric character.
pub fn extract_book_number(title: &str) -> (r: Option<String>)
    ensures
        match r {
            Some(marker) => book_number_of(title@) == Some(marker@),
            None => book_number_of(title@) is None,
        },
        r is Some <==> exists|at: int| is_marker_at(title@, at),
{
    proof {
        lemma_book_number(title@);
    }
    let cs = chars_of(title);
    let marker = chars_of("Book ");
    match find_marker(&cs, &marker) {
        None => None,
        Some(at) => {
            let start: usize = at + marker.len();
            let end: usize = numeric_run_end(&cs, start);
            let mut r = String::from_str("Book ");
            r.append(title.substring_char(start, end));
            Some(r)
        },
    }
}

/// The title to search providers with.
pub fn search_title(title: &str) -> (r: String)
    ensures
        r@ == search_title_of(title@),
{
    let mut r = String::from_str(get_base_title(title));
    match extract_book_number(title) {
        Some(marker) => {
            r.append(" ");
            r.append(marker.as_str());
            r
        },
        None => r,
    }
}

} // verus!
