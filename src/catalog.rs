use crate::json::{array_rows, json_array_rows, json_members, members};
use crate::text::{joined, lines_in, split_lines, substitute, substituted};
use vstd::prelude::*;

verus! {

/// A remote catalog that can be searched.
#[derive(Debug, Clone, Copy, PartialEq, Eq, Structural)]
pub enum Source {
    /// The primary catalog; streaming always searches here.
    YouTube,
    InternetArchive,
}

/// How many catalogs the source list offers.
pub const SOURCE_COUNT: usize = 2;

/// The catalog at position `i` of the source list.
pub open spec fn source_at(i: int) -> Source {
    if i == 1 {
        Source::InternetArchive
    } else {
        Source::YouTube
    }
}

impl Source {
    pub fn from_index(i: usize) -> (r: Source)
        ensures
            r == source_at(i as int),
    {
        if i == 1 {
            Source::InternetArchive
        } else {
            Source::YouTube
        }
    }
}

/// One track that a catalog search returned.
#[derive(Debug, Clone, PartialEq, Eq)]
pub struct SearchResult {
    pub identifier: String,
    pub title: String,
    pub source: Source,
}

/// A track as the contracts speak of it: identifier, title and catalog.
pub open spec fn track_view(t: SearchResult) -> (Seq<char>, Seq<char>, Source) {
    (t.identifier@, t.title@, t.source)
}

/// The track that a row of (identifier, title) members describes, when both
/// members are strings.
pub open spec fn track_of(row: Seq<Option<Seq<char>>>, source: Source) -> Option<
    (Seq<char>, Seq<char>, Source),
> {
    if row.len() >= 2 && row[0] is Some && row[1] is Some {
        Some((row[0]->0, row[1]->0, source))
    } else {
        None
    }
}

/// The track that a row of (identifier, title) members describes.
pub fn track_from_row(row: &Vec<Option<String>>, source: Source) -> (r: Option<SearchResult>)
    ensures
        match r {
            Some(t) => track_of(row.deep_view(), source) == Some(track_view(t)),
            None => track_of(row.deep_view(), source) is None,
        },
{
    if row.len() >= 2 {
        assert(row.deep_view()[0] == row@[0].deep_view());
        assert(row.deep_view()[1] == row@[1].deep_view());
        match (&row[0], &row[1]) {
            (Some(id), Some(title)) => Some(
                SearchResult { identifier: id.clone(), title: title.clone(), source },
            ),
            _ => None,
        }
    } else {
        None
    }
}

/// The tracks that rows of (identifier, title) members describe, in order:
/// one for each row where both members are strings; other rows are skipped.
pub open spec fn tracks_of(rows: Seq<Seq<Option<Seq<char>>>>, source: Source) -> Seq<
    (Seq<char>, Seq<char>, Source),
>
    decreases rows.len(),
{
    if rows.len() == 0 {
        Seq::empty()
    } else {
        let rest = tracks_of(rows.drop_last(), source);
        match track_of(rows.last(), source) {
            Some(t) => rest.push(t),
            None => rest,
        }
    }
}

/// The tracks that rows of (identifier, title) members describe.
pub fn tracks_from_rows(rows: &Vec<Vec<Option<String>>>, source: Source) -> (r: Vec<SearchResult>)
    ensures
        r@.map_values(|t: SearchResult| track_view(t)) == tracks_of(rows.deep_view(), source),
{
    let mut out: Vec<SearchResult> = Vec::new();
    let mut i: usize = 0;
    while i < rows.len()
        invariant
            i <= rows.len(),
            out@.map_values(|t: SearchResult| track_view(t)) == tracks_of(
                rows.deep_view().subrange(0, i as int),
                source,
            ),
        decreases rows.len() - i,
    {
        let row = &rows[i];
        let ghost rows_before = rows.deep_view().subrange(0, i as int);
        let ghost rows_after = rows.deep_view().subrange(0, i + 1);
        assert(rows_after.drop_last() =~= rows_before);
        assert(rows_after.last() == row.deep_view());
        match track_from_row(row, source) {
            Some(t) => out.push(t),
            None => {},
        }
        assert(out@.map_values(|t: SearchResult| track_view(t)) =~= tracks_of(rows_after, source));
        i = i + 1;
    }
    assert(rows.deep_view().subrange(0, rows.len() as int) =~= rows.deep_view());
    out
}

/// The members that name a track in a listing of `source`.
pub open spec fn track_keys(source: Source) -> Seq<Seq<char>> {
    match source {
        Source::YouTube => seq!["id"@, "title"@],
        Source::InternetArchive => seq!["identifier"@, "title"@],
    }
}

/// Where the documents found sit in an Internet Archive search response.
pub open spec fn archive_docs_pointer() -> Seq<char> {
    "/response/docs"@
}

/// The tracks of an Internet Archive search response: `None` when the
/// response is not JSON, none when it holds no array of documents.
pub open spec fn archive_tracks(text: Seq<char>) -> Option<Seq<(Seq<char>, Seq<char>, Source)>> {
    match json_array_rows(text, archive_docs_pointer(), track_keys(Source::InternetArchive)) {
        Some(Some(rows)) => Some(tracks_of(rows, Source::InternetArchive)),
        Some(None) => Some(Seq::empty()),
        None => None,
    }
}

/// Reads the tracks out of an Internet Archive search response, in the
/// order the catalog gave them.
pub fn parse_archive_listing(text: &str) -> (r: Option<Vec<SearchResult>>)
    ensures
        match r {
            Some(found) => archive_tracks(text@) == Some(
                found@.map_values(|t: SearchResult| track_view(t)),
            ),
            None => archive_tracks(text@) is None,
        },
{
    let keys: Vec<&str> = vec!["identifier", "title"];
    assert(keys.deep_view() =~= track_keys(Source::InternetArchive));
    match array_rows(text, "/response/docs", keys.as_slice()) {
        Some(Some(rows)) => Some(tracks_from_rows(&rows, Source::InternetArchive)),
        Some(None) => Some(Vec::new()),
        None => None,
    }
}

/// The tracks of the listing that yt-dlp prints, one JSON object per line;
/// lines that are not JSON, or lack a string identifier or title, are
/// skipped.
pub open spec fn youtube_tracks(lines: Seq<Seq<char>>) -> Seq<(Seq<char>, Seq<char>, Source)>
    decreases lines.len(),
{
    if lines.len() == 0 {
        Seq::empty()
    } else {
        let here = match json_members(lines.last(), track_keys(Source::YouTube)) {
            Some(row) => match track_of(row, Source::YouTube) {
                Some(t) => seq![t],
                None => Seq::empty(),
            },
            None => Seq::empty(),
        };
        youtube_tracks(lines.drop_last()) + here
    }
}

/// Reads the tracks out of yt-dlp's search listing, in order.
pub fn parse_youtube_listing(stdout: &str) -> (r: Vec<SearchResult>)
    ensures
        r@.map_values(|t: SearchResult| track_view(t)) == youtube_tracks(lines_in(stdout@)),
{
    let lines = split_lines(stdout);
    let keys: Vec<&str> = vec!["id", "title"];
    assert(keys.deep_view() =~= track_keys(Source::YouTube));
    let mut out: Vec<SearchResult> = Vec::new();
    let mut i: usize = 0;
    while i < lines.len()
        invariant
            i <= lines.len(),
            keys.deep_view() == track_keys(Source::YouTube),
            out@.map_values(|t: SearchResult| track_view(t)) == youtube_tracks(
                lines.deep_view().subrange(0, i as int),
            ),
        decreases lines.len() - i,
    {
        let ghost before = lines.deep_view().subrange(0, i as int);
        let ghost after = lines.deep_view().subrange(0, i + 1);
        assert(after.drop_last() =~= before);
        assert(after.last() == lines@[i as int]@);
        let ghost done = out@;
        match members(lines[i].as_str(), keys.as_slice()) {
            Some(row) => match track_from_row(&row, Source::YouTube) {
                Some(t) => {
                    out.push(t);
                    assert(out@.map_values(|t: SearchResult| track_view(t)) =~= done.map_values(
                        |t: SearchResult| track_view(t),
                    ).push(track_view(t)));
                },
                None => {},
            },
            None => {},
        }
        assert(out@.map_values(|t: SearchResult| track_view(t)) =~= youtube_tracks(after));
        i = i + 1;
    }
    assert(lines.deep_view().subrange(0, lines.len() as int) =~= lines.deep_view());
    out
}

/// The search term yt-dlp is given: the query, limited to fifteen hits.
pub open spec fn youtube_term_for(query: Seq<char>) -> Seq<char> {
    "ytsearch15:"@ + query
}

pub fn youtube_search_term(query: &str) -> (r: String)
    ensures
        r@ == youtube_term_for(query@),
{
    joined("ytsearch15:", query)
}

/// The Internet Archive search address for `query`, spaces written as `+`,
/// restricted to audio, asking for JSON.
pub open spec fn archive_search_url_for(query: Seq<char>) -> Seq<char> {
    "https://archive.org/advancedsearch.php?q="@ + substituted(query, ' ', ' ', '+')
        + "+mediatype:audio&output=json"@
}

pub fn archive_search_url(query: &str) -> (r: String)
    ensures
        r@ == archive_search_url_for(query@),
{
    proof {
        reveal_strlit("+");
    }
    let terms = substitute(query, ' ', ' ', "+");
    let head = joined("https://archive.org/advancedsearch.php?q=", terms.as_str());
    joined(head.as_str(), "+mediatype:audio&output=json")
}

/// The page of a YouTube video, which the fetch tool is given.
pub open spec fn youtube_watch_url_for(id: Seq<char>) -> Seq<char> {
    "https://www.youtube.com/watch?v="@ + id
}

pub fn youtube_watch_url(id: &str) -> (r: String)
    ensures
        r@ == youtube_watch_url_for(id@),
{
    joined("https://www.youtube.com/watch?v=", id)
}

} // verus!
