use houen::normalize;
use houen::normalize_date;
use houen::normalize_validated;
use houen::validate;
use houen::Error;
use houen::MovieData;
use houen::RawHit;
use houen::TmdbMovie;
use houen::TmdbResponse;

fn hit(title: Option<&str>, release_date: Option<&str>) -> RawHit {
    RawHit {
        title: title.map(|t| t.to_owned()),
        release_date: release_date.map(|d| d.to_owned()),
    }
}

#[test]
fn ordered_batch_keeps_length_order_and_marks_only_the_front() {
    let raw = vec![
        hit(Some("A"), Some("2001-01-01")),
        hit(Some("B"), Some("2002-02-02")),
        hit(Some("C"), None),
        hit(Some("D"), Some("")),
    ];
    let movies = normalize(raw).unwrap();
    assert_eq!(movies.len(), 4);
    let titles: Vec<&str> = movies.iter().map(|m| m.title.as_str()).collect();
    assert_eq!(titles, vec!["A", "B", "C", "D"]);
    for (i, m) in movies.iter().enumerate() {
        assert_eq!(m.is_most_relevant, i == 0);
    }
}

#[test]
fn absent_date_becomes_sentinel() {
    let movies = normalize(vec![hit(Some("A"), None)]).unwrap();
    assert_eq!(movies[0].release_date, "N/A");
}

#[test]
fn empty_date_becomes_sentinel() {
    let movies = normalize(vec![hit(Some("A"), Some(""))]).unwrap();
    assert_eq!(movies[0].release_date, "N/A");
}

#[test]
fn other_date_is_kept_verbatim() {
    let movies = normalize(vec![hit(Some("A"), Some("1999-12-31"))]).unwrap();
    assert_eq!(movies[0].release_date, "1999-12-31");
}

#[test]
fn normalize_date_applies_the_sentinel_policy() {
    assert_eq!(normalize_date(&None), "N/A");
    assert_eq!(normalize_date(&Some(String::new())), "N/A");
    assert_eq!(normalize_date(&Some("2010-07-16".to_owned())), "2010-07-16");
}

#[test]
fn empty_batch_is_the_no_results_condition() {
    let err = normalize(vec![]).unwrap_err();
    assert!(err.is_result_not_found());
    assert!(matches!(err, Error::ResultNotFound(_)));
    assert_eq!(err.message(), "No results found");
}

#[test]
fn missing_title_is_a_shape_error_for_the_whole_batch() {
    let raw = vec![hit(Some("A"), Some("2001-01-01")), hit(None, Some("2002-02-02"))];
    let err = normalize(raw).unwrap_err();
    assert!(!err.is_result_not_found());
    assert!(matches!(err, Error::Shape(_)));
}

#[test]
fn normalize_is_idempotent_on_equal_input() {
    let raw = || {
        vec![
            hit(Some("A"), Some("2001-01-01")),
            hit(Some("B"), Some("")),
            hit(Some("C"), None),
        ]
    };
    let first = normalize(raw()).unwrap();
    let second = normalize(raw()).unwrap();
    assert_eq!(first.len(), second.len());
    for (a, b) in first.iter().zip(second.iter()) {
        assert_eq!(a.title, b.title);
        assert_eq!(a.release_date, b.release_date);
        assert_eq!(a.is_most_relevant, b.is_most_relevant);
    }
}

#[test]
fn dune_example_end_to_end() {
    let raw = vec![hit(Some("Dune"), Some("2021-10-22")), hit(Some("Dune: Part Two"), Some(""))];
    let movies = normalize(raw).unwrap();
    assert_eq!(movies.len(), 2);
    assert_eq!(movies[0].title, "Dune");
    assert_eq!(movies[0].release_date, "2021-10-22");
    assert!(movies[0].is_most_relevant);
    assert_eq!(movies[1].title, "Dune: Part Two");
    assert_eq!(movies[1].release_date, "N/A");
    assert!(!movies[1].is_most_relevant);
}

#[test]
fn old_film_example_end_to_end() {
    let movies = normalize(vec![hit(Some("Old Film"), None)]).unwrap();
    assert_eq!(movies.len(), 1);
    assert_eq!(movies[0].title, "Old Film");
    assert_eq!(movies[0].release_date, "N/A");
    assert!(movies[0].is_most_relevant);
}

#[test]
fn validate_builds_the_typed_response() {
    let raw = vec![hit(Some("A"), Some("2001-01-01")), hit(Some("B"), None)];
    let response = validate(raw).unwrap();
    assert_eq!(response.results.len(), 2);
    assert_eq!(response.results[0].title, "A");
    assert_eq!(response.results[0].release_date.as_deref(), Some("2001-01-01"));
    assert_eq!(response.results[1].title, "B");
    assert_eq!(response.results[1].release_date, None);
}

#[test]
fn validate_rejects_a_titleless_hit() {
    let err = validate(vec![hit(None, None)]).unwrap_err();
    assert!(matches!(err, Error::Shape(_)));
}

#[test]
fn normalize_validated_rejects_an_empty_response() {
    let response = TmdbResponse { results: vec![] };
    let err = normalize_validated(response).unwrap_err();
    assert!(err.is_result_not_found());
    assert_eq!(err.message(), "No results found");
}

#[test]
fn normalize_validated_marks_the_front_entry() {
    let response = TmdbResponse {
        results: vec![
            TmdbMovie { title: "A".to_owned(), release_date: None },
            TmdbMovie { title: "B".to_owned(), release_date: Some("2002-02-02".to_owned()) },
        ],
    };
    let movies = normalize_validated(response).unwrap();
    assert_eq!(movies.len(), 2);
    assert!(movies[0].is_most_relevant);
    assert_eq!(movies[0].release_date, "N/A");
    assert!(!movies[1].is_most_relevant);
    assert_eq!(movies[1].release_date, "2002-02-02");
}

#[test]
fn movie_data_new_takes_every_field_verbatim() {
    let m = MovieData::new("T".to_owned(), "2001-01-01".to_owned(), true);
    assert_eq!(m.title, "T");
    assert_eq!(m.release_date, "2001-01-01");
    assert!(m.is_most_relevant);
}
