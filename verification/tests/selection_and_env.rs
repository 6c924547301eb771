use houen::chosen_title;
use houen::env_file_has_key;
use houen::MovieData;

fn movie(title: &str) -> MovieData {
    MovieData::new(title.to_owned(), "N/A".to_owned(), false)
}

#[test]
fn chosen_title_returns_the_picked_entry() {
    let movies = vec![movie("A"), movie("B"), movie("C")];
    assert_eq!(chosen_title(&movies, Some(1)).as_deref(), Some("B"));
    assert_eq!(chosen_title(&movies, Some(0)).as_deref(), Some("A"));
}

#[test]
fn chosen_title_passes_an_abort_through() {
    let movies = vec![movie("A")];
    assert_eq!(chosen_title(&movies, None), None);
}

#[test]
fn env_key_found_on_its_own_line() {
    let contents = b"API_KEY=abc\nAPI_TOKEN=def\n";
    assert!(env_file_has_key(contents, b"API_KEY"));
    assert!(env_file_has_key(contents, b"API_TOKEN"));
}

#[test]
fn env_key_absent_is_not_found() {
    let contents = b"API_KEY=abc\n";
    assert!(!env_file_has_key(contents, b"API_TOKEN"));
}

#[test]
fn env_key_must_match_the_whole_prefix() {
    let contents = b"API_KEY_OLD=abc\n";
    assert!(!env_file_has_key(contents, b"API_KEY"));
    assert!(!env_file_has_key(b"API=1\n", b"API_KEY"));
}

#[test]
fn env_key_found_without_trailing_newline() {
    assert!(env_file_has_key(b"API_KEY=abc", b"API_KEY"));
}

#[test]
fn env_key_found_after_a_carriage_return_line() {
    assert!(env_file_has_key(b"OTHER=1\r\nAPI_KEY=abc\r\n", b"API_KEY"));
}

#[test]
fn env_key_bare_final_carriage_return_stays_part_of_the_line() {
    assert!(!env_file_has_key(b"API_KEY\r", b"API_KEY"));
    assert!(env_file_has_key(b"API_KEY\r\n", b"API_KEY"));
}

#[test]
fn env_key_line_without_equals_counts_whole_line() {
    assert!(env_file_has_key(b"API_KEY\n", b"API_KEY"));
    assert!(!env_file_has_key(b"API_KEY\n", b"API"));
}

#[test]
fn env_key_empty_file_has_no_keys() {
    assert!(!env_file_has_key(b"", b"API_KEY"));
    assert!(!env_file_has_key(b"", b""));
}

#[test]
fn env_key_empty_key_matches_an_empty_line() {
    assert!(env_file_has_key(b"\n", b""));
    assert!(env_file_has_key(b"=value\n", b""));
    assert!(!env_file_has_key(b"x\n", b""));
}
