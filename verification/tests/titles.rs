use audiobookshelf_discord_rpc::title::{extract_book_number, get_base_title, search_title};
use audiobookshelf_discord_rpc::text::{chars_of, matches_at, trim};

#[test]
fn base_title_stops_at_the_first_colon() {
    assert_eq!(
        get_base_title("The Way of Kings: Book One of the Stormlight Archive"),
        "The Way of Kings"
    );
}

#[test]
fn base_title_stops_at_the_first_parenthesis() {
    assert_eq!(get_base_title("Dune (Unabridged)"), "Dune");
    assert_eq!(get_base_title("Dune (Unabridged): Part One"), "Dune");
    assert_eq!(get_base_title("Dune: Part One (Unabridged)"), "Dune");
}

#[test]
fn base_title_without_decoration_is_trimmed() {
    assert_eq!(get_base_title("  Plain Title \t\n"), "Plain Title");
    assert_eq!(get_base_title("Plain Title"), "Plain Title");
    assert_eq!(get_base_title(""), "");
    assert_eq!(get_base_title("   "), "");
    assert_eq!(get_base_title(": subtitle only"), "");
}

#[test]
fn base_title_trims_unicode_whitespace() {
    assert_eq!(get_base_title("\u{a0}Titre\u{2003}: sous-titre"), "Titre");
    assert_eq!(get_base_title("\u{7ae0}\u{3000}(x)"), "\u{7ae0}");
}

#[test]
fn book_number_is_the_marker_and_its_digits() {
    assert_eq!(
        extract_book_number("Mistborn Book 3: The Hero of Ages"),
        Some("Book 3".to_string())
    );
    assert_eq!(
        extract_book_number("Wheel of Time Book 12 (Unabridged)"),
        Some("Book 12".to_string())
    );
}

#[test]
fn book_number_may_end_the_title() {
    assert_eq!(extract_book_number("Series Book 3"), Some("Book 3".to_string()));
    assert_eq!(extract_book_number("Saga Book 7"), Some("Book 7".to_string()));
    assert_eq!(extract_book_number("Saga Book 7 "), Some("Book 7".to_string()));
    assert_eq!(extract_book_number("Book 12"), Some("Book 12".to_string()));
}

#[test]
fn book_number_needs_at_least_one_digit() {
    assert_eq!(extract_book_number("Book of Secrets: A Novel"), None);
    assert_eq!(extract_book_number("The Book of Dust"), None);
    assert_eq!(extract_book_number("Saga Book "), None);
    assert_eq!(extract_book_number("Saga Book"), None);
    assert_eq!(extract_book_number("Saga Book  7"), None);
}

#[test]
fn book_number_skips_a_marker_word_without_a_number() {
    assert_eq!(
        extract_book_number("The Book of Dust Book 2: The Secret Commonwealth"),
        Some("Book 2".to_string())
    );
    assert_eq!(extract_book_number("Book Book 41x"), Some("Book 41".to_string()));
}

#[test]
fn book_number_takes_the_whole_run_of_digits() {
    assert_eq!(extract_book_number("Saga Book 007b"), Some("Book 007".to_string()));
    assert_eq!(extract_book_number("Saga Book 7.5"), Some("Book 7".to_string()));
}

#[test]
fn book_number_is_absent_without_the_marker() {
    assert_eq!(extract_book_number("No marker here"), None);
    assert_eq!(extract_book_number("lowercase book 3 here"), None);
    assert_eq!(extract_book_number("Book3 here"), None);
    assert_eq!(extract_book_number(""), None);
}

#[test]
fn book_number_goes_by_the_first_marker() {
    assert_eq!(
        extract_book_number("Book 1 and Book 2 together"),
        Some("Book 1".to_string())
    );
}

#[test]
fn book_number_takes_any_numeric_character() {
    assert_eq!(
        extract_book_number("S\u{e9}rie Book \u{663}\u{bd} fin"),
        Some("Book \u{663}\u{bd}".to_string())
    );
}

#[test]
fn search_title_is_the_base_title_alone_without_marker() {
    assert_eq!(search_title("Dune (Unabridged)"), "Dune");
    assert_eq!(search_title("Emma"), "Emma");
}

#[test]
fn search_title_keeps_a_marker_that_ends_the_title() {
    assert_eq!(search_title("Stormlight (Unabridged) Book 4"), "Stormlight Book 4");
    assert_eq!(search_title("The Book of Dust: Volume One"), "The Book of Dust");
}

#[test]
fn search_title_appends_the_marker_again() {
    assert_eq!(
        search_title("The Final Empire: Mistborn Book 1 (Unabridged)"),
        "The Final Empire Book 1"
    );
    assert_eq!(search_title("Mistborn Book 3: The Hero of Ages"), "Mistborn Book 3 Book 3");
}

#[test]
fn matches_at_counts_characters() {
    let s = chars_of("\u{e9}t\u{e9} Book Book ");
    let p = chars_of("Book ");
    assert!(matches_at(&s, &p, 4));
    assert!(matches_at(&s, &p, 9));
    assert!(!matches_at(&s, &p, 0));
    assert!(!matches_at(&s, &p, 5));
    assert!(!matches_at(&s, &p, 12));
    assert!(!matches_at(&s, &p, 14));
    assert!(!matches_at(&s, &p, usize::MAX));
    assert!(!matches_at(&p, &s, 0));
    assert!(matches_at(&s, &chars_of(""), 0));
    assert!(matches_at(&s, &chars_of(""), 14));
    assert!(!matches_at(&s, &chars_of(""), 15));
}

#[test]
fn trim_matches_the_standard_trim() {
    for s in ["", " ", "a", " a", "a ", " a b ", "\t\u{a0}x\u{2028}y\n", "\u{3000}"] {
        assert_eq!(trim(s), s.trim());
    }
}
