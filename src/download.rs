use crate::json::{array_rows, json_array_rows};
use crate::text::{joined, substitute, substituted};
use vstd::prelude::*;

verus! {

/// The file name a downloaded track is stored under: its title with every
/// path separator turned into an underscore, then a fixed suffix and
/// extension.
pub open spec fn file_name_for(title: Seq<char>) -> Seq<char> {
    substituted(title, '/', '\\', '_') + " (PJ-PLAYER).mp3"@
}

pub fn download_file_name(title: &str) -> (r: String)
    ensures
        r@ == file_name_for(title@),
{
    proof {
        reveal_strlit("_");
    }
    let base = substitute(title, '/', '\\', "_");
    joined(base.as_str(), " (PJ-PLAYER).mp3")
}

/// The download file name holds no path separator, and depends on the
/// title alone: equal titles give equal names.
pub proof fn lemma_file_name_is_plain(title: Seq<char>, other: Seq<char>)
    ensures
        forall|i: int|
            0 <= i < file_name_for(title).len() ==> #[trigger] file_name_for(title)[i] != '/'
                && file_name_for(title)[i] != '\\',
        title == other ==> file_name_for(title) == file_name_for(other),
{
    reveal_strlit(" (PJ-PLAYER).mp3");
    let base = substituted(title, '/', '\\', '_');
    assert forall|i: int| 0 <= i < file_name_for(title).len() implies #[trigger] file_name_for(
        title,
    )[i] != '/' && file_name_for(title)[i] != '\\' by {
        if i < base.len() {
            assert(file_name_for(title)[i] == base[i]);
        } else {
            assert(file_name_for(title)[i] == " (PJ-PLAYER).mp3"@[i - base.len()]);
        }
    }
}

/// What the download status slot shows.
#[derive(Debug, Clone, PartialEq, Eq)]
pub enum DownloadStatus {
    /// No download to report.
    Idle,
    /// The track with this title is being downloaded.
    InProgress { title: String },
    /// The track with this title was stored.
    Succeeded { title: String },
    /// The download failed, for this reason.
    Failed { reason: String },
}

/// Whether the status slot may go from `a` to `b` in one write: it may be
/// cleared, a new download may start, and a download in progress may end in
/// success for that same track or in failure. A finished state is never
/// reached otherwise.
pub open spec fn status_step(a: DownloadStatus, b: DownloadStatus) -> bool {
    ||| b == a
    ||| b is Idle
    ||| b is InProgress
    ||| a matches DownloadStatus::InProgress { title } && (b == DownloadStatus::Succeeded { title }
        || b is Failed)
}

/// The text shown for a status, if any.
pub open spec fn status_text(s: DownloadStatus) -> Option<Seq<char>> {
    match s {
        DownloadStatus::Idle => None,
        DownloadStatus::InProgress { title } => Some(title@ + " is downloading"@),
        DownloadStatus::Succeeded { title } => Some(title@ + " downloaded successfully"@),
        DownloadStatus::Failed { reason } => Some("Download failed: "@ + reason@),
    }
}

impl DownloadStatus {
    pub fn message(&self) -> (r: Option<String>)
        ensures
            match r {
                Some(m) => status_text(*self) == Some(m@),
                None => status_text(*self) is None,
            },
    {
        match self {
            DownloadStatus::Idle => None,
            DownloadStatus::InProgress { title } => Some(joined(title.as_str(), " is downloading")),
            DownloadStatus::Succeeded { title } => Some(
                joined(title.as_str(), " downloaded successfully"),
            ),
            DownloadStatus::Failed { reason } => Some(joined("Download failed: ", reason.as_str())),
        }
    }
}

/// The single shared slot that downloads report to. Each started download
/// gets a ticket; only the download whose ticket is current, and whose
/// progress is still shown, may write its ending. An earlier download, or
/// one whose status was cleared, keeps running but its ending is never
/// observed.
pub struct DownloadSlot {
    pub status: DownloadStatus,
    pub ticket: u64,
}

/// The ticket that follows `t`.
pub open spec fn next_ticket(t: u64) -> u64 {
    if t == u64::MAX {
        0
    } else {
        (t + 1) as u64
    }
}

impl DownloadSlot {
    pub fn new() -> (r: DownloadSlot)
        ensures
            r.status is Idle,
            r.ticket == 0,
    {
        DownloadSlot { status: DownloadStatus::Idle, ticket: 0 }
    }

    /// Shows `title` as downloading and returns the new download's ticket.
    pub fn begin(&mut self, title: String) -> (t: u64)
        ensures
            final(self).status == (DownloadStatus::InProgress { title }),
            final(self).ticket == next_ticket(old(self).ticket),
            t == final(self).ticket,
            status_step(old(self).status, final(self).status),
    {
        self.ticket = self.ticket.wrapping_add(1);
        self.status = DownloadStatus::InProgress { title };
        self.ticket
    }

    /// Writes the ending of the download holding `ticket`: success, or the
    /// reason it failed. Ignored unless that download's progress is what
    /// the slot shows.
    pub fn finish(&mut self, ticket: u64, outcome: Result<(), String>)
        ensures
            final(self).ticket == old(self).ticket,
            status_step(old(self).status, final(self).status),
            match old(self).status {
                DownloadStatus::InProgress { title } => if ticket == old(self).ticket {
                    match outcome {
                        Ok(()) => final(self).status == DownloadStatus::Succeeded { title },
                        Err(reason) => final(self).status == DownloadStatus::Failed { reason },
                    }
                } else {
                    final(self).status == old(self).status
                },
                _ => final(self).status == old(self).status,
            },
    {
        if ticket != self.ticket {
            return ;
        }
        let title = match &self.status {
            DownloadStatus::InProgress { title } => title.clone(),
            _ => {
                return ;
            },
        };
        self.status = match outcome {
            Ok(()) => DownloadStatus::Succeeded { title },
            Err(reason) => DownloadStatus::Failed { reason },
        };
    }

    /// Empties the slot.
    pub fn clear(&mut self)
        ensures
            final(self).status is Idle,
            final(self).ticket == old(self).ticket,
            status_step(old(self).status, final(self).status),
    {
        self.status = DownloadStatus::Idle;
    }
}

/// A finished status follows the progress of the very download it reports:
/// whenever the slot turns to success or failure, it showed that download
/// in progress just before, and a success names the same track.
pub proof fn lemma_no_skipped_progress(a: DownloadStatus, b: DownloadStatus)
    requires
        status_step(a, b),
        b != a,
        b is Succeeded || b is Failed,
    ensures
        a is InProgress,
        b matches DownloadStatus::Succeeded { title } ==> a == (DownloadStatus::InProgress {
            title,
        }),
{
}

/// The audio formats an Internet Archive download accepts, most wanted
/// first: the lossless ones, then the lossy ones.
pub open spec fn preferred_formats() -> Seq<Seq<char>> {
    seq!["WAVE"@, "WAV"@, "FLAC"@, "VBR MP3"@, "MP3"@, "OGG"@]
}

/// Where the file list sits in an Internet Archive metadata response, and
/// the members read from each file: its declared format and its name.
pub open spec fn files_pointer() -> Seq<char> {
    "/files"@
}

pub open spec fn file_keys() -> Seq<Seq<char>> {
    seq!["format"@, "name"@]
}

/// Whether the file row declares format `f`.
pub open spec fn has_format(row: Seq<Option<Seq<char>>>, f: Seq<char>) -> bool {
    row.len() >= 1 && row[0] == Some(f)
}

/// The position of the first file that declares format `f`.
pub open spec fn first_of_format(files: Seq<Seq<Option<Seq<char>>>>, f: Seq<char>) -> Option<int>
    decreases files.len(),
{
    if files.len() == 0 {
        None
    } else if has_format(files[0], f) {
        Some(0)
    } else {
        match first_of_format(files.drop_first(), f) {
            Some(i) => Some(i + 1),
            None => None,
        }
    }
}

/// The name of the file to download: for each format in preference order,
/// the first file of that format is taken if it has a name; otherwise the
/// next format is tried.
pub open spec fn chosen_file(files: Seq<Seq<Option<Seq<char>>>>, formats: Seq<Seq<char>>) -> Option<
    Seq<char>,
>
    decreases formats.len(),
{
    if formats.len() == 0 {
        None
    } else {
        match first_of_format(files, formats[0]) {
            Some(i) if files[i].len() >= 2 && files[i][1] is Some => files[i][1],
            _ => chosen_file(files, formats.drop_first()),
        }
    }
}

proof fn lemma_first_of_format(files: Seq<Seq<Option<Seq<char>>>>, f: Seq<char>, i: int)
    requires
        0 <= i <= files.len(),
        forall|k: int| 0 <= k < i ==> !has_format(#[trigger] files[k], f),
    ensures
        i < files.len() && has_format(files[i], f) ==> first_of_format(files, f) == Some(i),
        i == files.len() ==> first_of_format(files, f) is None,
    decreases i,
{
    if i > 0 {
        let rest = files.drop_first();
        assert forall|k: int| 0 <= k < i - 1 implies !has_format(#[trigger] rest[k], f) by {
            assert(rest[k] == files[k + 1]);
        }
        assert(!has_format(files[0], f));
        lemma_first_of_format(rest, f, i - 1);
    }
}

fn find_format(files: &Vec<Vec<Option<String>>>, f: &str) -> (r: Option<usize>)
    ensures
        r matches Some(i) ==> i < files.len(),
        match r {
            Some(i) => first_of_format(files.deep_view(), f@) == Some(i as int),
            None => first_of_format(files.deep_view(), f@) is None,
        },
{
    let want = String::from_str(f);
    let mut i: usize = 0;
    while i < files.len()
        invariant
            i <= files.len(),
            want@ == f@,
            forall|k: int| 0 <= k < i ==> !has_format(#[trigger] files.deep_view()[k], f@),
        decreases files.len() - i,
    {
        let row = &files[i];
        assert(files.deep_view()[i as int] == row.deep_view());
        if row.len() >= 1 {
            assert(row.deep_view()[0] == row@[0].deep_view());
            match &row[0] {
                Some(declared) => {
                    if declared.eq(&want) {
                        proof {
                            lemma_first_of_format(files.deep_view(), f@, i as int);
                        }
                        return Some(i);
                    }
                },
                None => {},
            }
        }
        i = i + 1;
    }
    proof {
        lemma_first_of_format(files.deep_view(), f@, i as int);
    }
    None
}

/// Why no Internet Archive file could be chosen.
#[derive(Debug, Clone, Copy, PartialEq, Eq, Structural)]
pub enum ArchiveError {
    /// The metadata response is not JSON.
    Malformed,
    /// No array of files, or no file of an accepted format with a name, is
    /// listed.
    NoAudioFile,
}

impl ArchiveError {
    pub fn reason(&self) -> (r: &'static str)
        ensures
            *self == ArchiveError::Malformed ==> r@ == "Malformed metadata response"@,
            *self == ArchiveError::NoAudioFile ==> r@ == "No suitable audio file found"@,
    {
        match self {
            ArchiveError::Malformed => "Malformed metadata response",
            ArchiveError::NoAudioFile => "No suitable audio file found",
        }
    }
}

/// The file chosen from an Internet Archive metadata response. Without an
/// array of files there is no file to choose.
pub open spec fn archive_choice(metadata: Seq<char>) -> Result<Seq<char>, ArchiveError> {
    match json_array_rows(metadata, files_pointer(), file_keys()) {
        None => Err(ArchiveError::Malformed),
        Some(None) => Err(ArchiveError::NoAudioFile),
        Some(Some(files)) => match chosen_file(files, preferred_formats()) {
            Some(name) => Ok(name),
            None => Err(ArchiveError::NoAudioFile),
        },
    }
}

/// Chooses the file to download out of the (format, name) rows of an
/// item's file list: the name of the first file of the most wanted format
/// that has one.
pub fn pick_file(files: &Vec<Vec<Option<String>>>) -> (r: Option<String>)
    ensures
        r.deep_view() == chosen_file(files.deep_view(), preferred_formats()),
{
    let formats: Vec<&str> = vec!["WAVE", "WAV", "FLAC", "VBR MP3", "MP3", "OGG"];
    assert(formats.deep_view() =~= preferred_formats());
    assert(preferred_formats().subrange(0, preferred_formats().len() as int)
        =~= preferred_formats());
    let mut j: usize = 0;
    while j < formats.len()
        invariant
            j <= formats.len(),
            formats.deep_view() == preferred_formats(),
            chosen_file(files.deep_view(), preferred_formats()) == chosen_file(
                files.deep_view(),
                preferred_formats().subrange(j as int, preferred_formats().len() as int),
            ),
        decreases formats.len() - j,
    {
        let ghost rest = preferred_formats().subrange(j as int, preferred_formats().len() as int);
        assert(rest.drop_first() =~= preferred_formats().subrange(
            j + 1,
            preferred_formats().len() as int,
        ));
        assert(rest[0] == formats@[j as int]@);
        match find_format(files, formats[j]) {
            Some(i) => {
                let row = &files[i];
                assert(files.deep_view()[i as int] == row.deep_view());
                if row.len() >= 2 {
                    assert(row.deep_view()[1] == row@[1].deep_view());
                    match &row[1] {
                        Some(name) => {
                            assert(files.deep_view()[i as int][1] == Some(name@));
                            assert(chosen_file(files.deep_view(), rest) == Some(name@));
                            return Some(name.clone());
                        },
                        None => {},
                    }
                }
            },
            None => {},
        }
        j = j + 1;
    }
    None
}

/// Chooses the file to download out of an item's metadata response.
pub fn choose_archive_file(metadata: &str) -> (r: Result<String, ArchiveError>)
    ensures
        match r {
            Ok(name) => archive_choice(metadata@) == Ok::<Seq<char>, ArchiveError>(name@),
            Err(e) => archive_choice(metadata@) == Err::<Seq<char>, ArchiveError>(e),
        },
{
    let keys: Vec<&str> = vec!["format", "name"];
    assert(keys.deep_view() =~= file_keys());
    match array_rows(metadata, "/files", keys.as_slice()) {
        Some(Some(files)) => match pick_file(&files) {
            Some(name) => Ok(name),
            None => Err(ArchiveError::NoAudioFile),
        },
        Some(None) => Err(ArchiveError::NoAudioFile),
        None => Err(ArchiveError::Malformed),
    }
}

/// The address of an Internet Archive item's metadata.
pub open spec fn archive_metadata_url_for(identifier: Seq<char>) -> Seq<char> {
    "https://archive.org/metadata/"@ + identifier
}

pub fn archive_metadata_url(identifier: &str) -> (r: String)
    ensures
        r@ == archive_metadata_url_for(identifier@),
{
    joined("https://archive.org/metadata/", identifier)
}

/// The address of file `name` of an Internet Archive item.
pub open spec fn archive_file_url_for(identifier: Seq<char>, name: Seq<char>) -> Seq<char> {
    "https://archive.org/download/"@ + identifier + "/"@ + name
}

/// The address to download from, out of the item's metadata response: the
/// chosen file of the item, or why none could be chosen.
pub fn archive_file_url(identifier: &str, metadata: &str) -> (r: Result<String, ArchiveError>)
    ensures
        match archive_choice(metadata@) {
            Ok(name) => r matches Ok(url) && url@ == archive_file_url_for(identifier@, name),
            Err(e) => r == Err::<String, ArchiveError>(e),
        },
{
    match choose_archive_file(metadata) {
        Ok(name) => {
            let head = joined("https://archive.org/download/", identifier);
            let dir = joined(head.as_str(), "/");
            Ok(joined(dir.as_str(), name.as_str()))
        },
        Err(e) => Err(e),
    }
}

} // verus!
