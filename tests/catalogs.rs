use pj_player::catalog::{
    archive_search_url, parse_archive_listing, parse_youtube_listing, track_from_row,
    tracks_from_rows,
    youtube_search_term, youtube_watch_url, SearchResult, Source,
};
use pj_player::text::split_lines;

fn track(id: &str, title: &str, source: Source) -> SearchResult {
    SearchResult { identifier: id.to_string(), title: title.to_string(), source }
}

#[test]
fn archive_listing_keeps_complete_docs_in_order() {
    let text = r#"{"response":{"numFound":3,"docs":[
        {"identifier":"one","title":"First"},
        {"identifier":"two"},
        {"identifier":"three","title":["not","a","string"]},
        {"identifier":"four","title":"Fourth"}
    ]}}"#;
    let found = parse_archive_listing(text).unwrap();
    assert_eq!(
        found,
        vec![
            track("one", "First", Source::InternetArchive),
            track("four", "Fourth", Source::InternetArchive),
        ]
    );
}

#[test]
fn archive_listing_without_docs_is_empty() {
    assert_eq!(parse_archive_listing(r#"{"response":{}}"#), Some(Vec::new()));
    assert_eq!(parse_archive_listing("not json"), None);
}

#[test]
fn youtube_listing_reads_one_object_per_line() {
    let stdout = "{\"id\":\"abc\",\"title\":\"Alpha\",\"duration\":12}\n\
                  garbage line\n\
                  {\"id\":\"def\"}\n\
                  {\"id\":\"ghi\",\"title\":\"Gamma\"}\r\n";
    let found = parse_youtube_listing(stdout);
    assert_eq!(
        found,
        vec![track("abc", "Alpha", Source::YouTube), track("ghi", "Gamma", Source::YouTube)]
    );
    assert!(parse_youtube_listing("").is_empty());
}

#[test]
fn lines_split_at_line_feeds() {
    assert_eq!(split_lines("a\nb\n\nc"), vec!["a", "b", "", "c"]);
    assert_eq!(split_lines("a\n"), vec!["a"]);
    assert!(split_lines("").is_empty());
}

#[test]
fn search_requests() {
    assert_eq!(youtube_search_term("lo fi"), "ytsearch15:lo fi");
    assert_eq!(
        archive_search_url("blue in green"),
        "https://archive.org/advancedsearch.php?q=blue+in+green+mediatype:audio&output=json"
    );
    assert_eq!(youtube_watch_url("dQw4"), "https://www.youtube.com/watch?v=dQw4");
    assert_eq!(Source::from_index(1), Source::InternetArchive);
    assert_eq!(Source::from_index(0), Source::YouTube);
}

#[test]
fn rows_become_tracks_when_complete() {
    let rows = vec![
        vec![Some("x".to_string()), Some("X".to_string())],
        vec![Some("y".to_string()), None],
        vec![Some("z".to_string())],
        vec![Some("w".to_string()), Some("W".to_string()), Some("extra".to_string())],
    ];
    assert_eq!(
        tracks_from_rows(&rows, Source::YouTube),
        vec![track("x", "X", Source::YouTube), track("w", "W", Source::YouTube)]
    );
}

#[test]
fn archive_docs_that_are_not_an_array_give_no_tracks() {
    let text = r#"{"response":{"docs":{"identifier":"solo","title":"Solo"}}}"#;
    assert_eq!(parse_archive_listing(text), Some(Vec::new()));
    assert_eq!(parse_archive_listing(r#"{"response":{"docs":"none"}}"#), Some(Vec::new()));
}

#[test]
fn youtube_line_holding_an_array_gives_no_track() {
    let stdout = "[{\"id\":\"a\",\"title\":\"A\"},{\"id\":\"b\",\"title\":\"B\"}]\n\
                  {\"id\":\"c\",\"title\":\"C\"}\n";
    assert_eq!(parse_youtube_listing(stdout), vec![track("c", "C", Source::YouTube)]);
}

#[test]
fn single_row_becomes_track() {
    let full = vec![Some("id".to_string()), Some("T".to_string())];
    let partial = vec![None, Some("T".to_string())];
    assert_eq!(
        track_from_row(&full, Source::InternetArchive),
        Some(track("id", "T", Source::InternetArchive))
    );
    assert_eq!(track_from_row(&partial, Source::YouTube), None);
    assert_eq!(track_from_row(&Vec::new(), Source::YouTube), None);
}
