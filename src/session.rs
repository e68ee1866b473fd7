use crate::catalog::{source_at, SearchResult, Source, SOURCE_COUNT};
use crate::pipeline::{PipelineHandle, Signal};
use crate::sampler::{levels_after, silent, step_for};
use crate::text::drop_last_char;
use vstd::prelude::*;
use vstd::view::View as _;

verus! {

/// What the user set out to do with the track they will pick.
#[derive(Debug, Clone, Copy, PartialEq, Eq, Structural)]
pub enum Mode {
    Stream,
    Download,
}

/// How many entries the mode list has (stream, download).
pub const MODE_COUNT: usize = 2;

/// The screen the session is on.
#[derive(Debug, Clone, Copy, PartialEq, Eq, Structural)]
pub enum View {
    /// Typing the query.
    SearchInput,
    /// The list of tracks a search returned.
    SearchResults,
    /// Choosing between streaming and downloading; the session starts here.
    InitialSelection,
    /// Choosing the catalog to download from.
    SourceSelection,
    /// A track is playing through a live pipeline.
    Streaming,
    /// A download was started; its status is shown.
    Downloading,
}

/// A key press, as the terminal reports it.
#[derive(Debug, Clone, Copy, PartialEq, Eq, Structural)]
pub enum Key {
    Up,
    Down,
    Left,
    Right,
    Enter,
    Esc,
    Backspace,
    Char(char),
    /// The kill-session chord.
    Interrupt,
    Other,
}

/// An input event of the session.
#[derive(Debug, Clone, Copy, PartialEq, Eq, Structural)]
pub enum Event {
    Up,
    Down,
    Confirm,
    Back,
    Char(char),
    Backspace,
    TogglePause,
    SetEqualizer(usize),
    Quit,
}

/// A failure shown to the user in the current view.
#[derive(Debug, Clone, PartialEq, Eq)]
pub enum SessionError {
    /// The catalog search failed; the text says why.
    Search(String),
    /// The pipeline could not be started; the text says why.
    Spawn(String),
    /// This signal could not be delivered to the play process.
    Signal(Signal),
    /// A pause was asked for while nothing plays.
    NoPipeline,
}

/// Outside work the session asks its driver to carry out after an event.
#[derive(Debug, PartialEq, Eq)]
pub enum Action {
    Nothing,
    /// Search `source` for `query`, then hand the outcome to `AppUi::search`.
    Search { query: String, source: Source },
    /// Start the fetch/play pipeline for the track, then hand the outcome to
    /// `AppUi::stream_started`.
    StartStream { identifier: String },
    /// Deliver `signal` to process `pid`, then hand the outcome to
    /// `AppUi::toggle_pause`.
    SendSignal { pid: u32, signal: Signal },
    /// Kill and reap both processes of this pipeline, stop its sampler and
    /// zero the visualization levels.
    Teardown(PipelineHandle),
    /// Start a background download of the track.
    StartDownload { identifier: String, title: String, source: Source },
    /// Empty the download status slot.
    ClearDownloadStatus,
    /// Tear down this pipeline, if any, and end the session.
    Exit(Option<PipelineHandle>),
}

/// The event a key press stands for in `view`, if any. Escape and the
/// kill-session chord quit from everywhere; a character is typed into the
/// query while it is edited; while streaming, space toggles the pause and the
/// digits 1 to 9 pick an equalizer style.
pub open spec fn key_event(view: View, key: Key) -> Option<Event> {
    match key {
        Key::Esc | Key::Interrupt => Some(Event::Quit),
        Key::Up => Some(Event::Up),
        Key::Down => Some(Event::Down),
        Key::Enter | Key::Right => Some(Event::Confirm),
        Key::Left => Some(Event::Back),
        Key::Backspace => Some(Event::Backspace),
        Key::Char(c) => {
            if view == View::SearchInput {
                Some(Event::Char(c))
            } else if view == View::Streaming && c == ' ' {
                Some(Event::TogglePause)
            } else if view == View::Streaming && '1' as u32 <= c as u32 <= '9' as u32 {
                Some(Event::SetEqualizer((c as u32 - '1' as u32) as usize))
            } else {
                None
            }
        },
        Key::Other => None,
    }
}

pub fn event_for_key(view: View, key: Key) -> (r: Option<Event>)
    ensures
        r == key_event(view, key),
{
    match key {
        Key::Esc | Key::Interrupt => Some(Event::Quit),
        Key::Up => Some(Event::Up),
        Key::Down => Some(Event::Down),
        Key::Enter | Key::Right => Some(Event::Confirm),
        Key::Left => Some(Event::Back),
        Key::Backspace => Some(Event::Backspace),
        Key::Char(c) => {
            let code = c as u32;
            if view == View::SearchInput {
                Some(Event::Char(c))
            } else if view == View::Streaming && c == ' ' {
                Some(Event::TogglePause)
            } else if view == View::Streaming && '1' as u32 <= code && code <= '9' as u32 {
                Some(Event::SetEqualizer((code - '1' as u32) as usize))
            } else {
                None
            }
        },
        Key::Other => None,
    }
}

/// A selection cursor over a list of `len` entries: a position in the list,
/// or absent exactly when the list is empty.
pub open spec fn cursor_valid(c: Option<int>, len: int) -> bool {
    match c {
        Some(i) => 0 <= i < len,
        None => len == 0,
    }
}

/// The cursor moved up one entry; at the top it stays.
pub open spec fn cursor_up(c: Option<int>) -> Option<int> {
    match c {
        Some(i) => if i > 0 {
            Some(i - 1)
        } else {
            Some(i)
        },
        None => None,
    }
}

/// The cursor moved down one entry of a list of `len`; at the bottom it stays.
pub open spec fn cursor_down(c: Option<int>, len: int) -> Option<int> {
    match c {
        Some(i) => if i + 1 < len {
            Some(i + 1)
        } else {
            Some(i)
        },
        None => None,
    }
}

/// The cursor after the `Up` and `Down` events of `moves`, in order; other
/// events leave it where it is.
pub open spec fn cursor_after(c: Option<int>, len: int, moves: Seq<Event>) -> Option<int>
    decreases moves.len(),
{
    if moves.len() == 0 {
        c
    } else {
        let moved = match moves[0] {
            Event::Up => cursor_up(c),
            Event::Down => cursor_down(c, len),
            _ => c,
        };
        cursor_after(moved, len, moves.drop_first())
    }
}

/// However many `Up` and `Down` events arrive, a valid cursor stays within
/// the list, and over an empty list it stays absent.
pub proof fn lemma_cursor_stays_valid(c: Option<int>, len: int, moves: Seq<Event>)
    requires
        cursor_valid(c, len),
    ensures
        cursor_valid(cursor_after(c, len, moves), len),
        len == 0 ==> cursor_after(c, len, moves) is None,
    decreases moves.len(),
{
    if moves.len() > 0 {
        let moved = match moves[0] {
            Event::Up => cursor_up(c),
            Event::Down => cursor_down(c, len),
            _ => c,
        };
        lemma_cursor_stays_valid(moved, len, moves.drop_first());
    }
}

/// The view that the results list goes back to: the catalog choice when
/// downloading, the query otherwise.
pub open spec fn results_parent(mode: Option<Mode>) -> View {
    if mode == Some(Mode::Download) {
        View::SourceSelection
    } else {
        View::SearchInput
    }
}

/// The state of a session, as the contracts speak of it.
pub struct SessionView {
    pub query: Seq<char>,
    pub results: Seq<SearchResult>,
    pub cursor: Option<int>,
    pub mode_cursor: int,
    pub source_cursor: int,
    pub source: Source,
    pub view: View,
    pub pipeline: Option<PipelineHandle>,
    pub mode: Option<Mode>,
    pub equalizer: int,
    pub notice: Option<SessionError>,
}

impl SessionView {
    /// The session's invariant: every cursor is valid for its list, a
    /// pipeline exists exactly while streaming, a mode is chosen before the
    /// query is edited, a catalog is chosen only for a download, and
    /// streaming always searches the primary catalog.
    pub open spec fn wf(self) -> bool {
        &&& cursor_valid(self.cursor, self.results.len() as int)
        &&& 0 <= self.mode_cursor < MODE_COUNT
        &&& 0 <= self.source_cursor < SOURCE_COUNT
        &&& (self.pipeline is Some <==> self.view == View::Streaming)
        &&& (self.view != View::InitialSelection ==> self.mode is Some)
        &&& (self.mode == Some(Mode::Stream) ==> self.source == Source::YouTube)
        &&& (self.view == View::Streaming ==> self.cursor is Some && self.mode == Some(
            Mode::Stream,
        ))
        &&& (self.view == View::SourceSelection ==> self.mode == Some(Mode::Download))
        &&& (self.view == View::Downloading ==> self.cursor is Some)
    }

    /// The session as it starts: on the mode list, with nothing typed,
    /// found or playing.
    pub open spec fn initial() -> SessionView {
        SessionView {
            query: Seq::empty(),
            results: Seq::empty(),
            cursor: None,
            mode_cursor: 0,
            source_cursor: 0,
            source: Source::YouTube,
            view: View::InitialSelection,
            pipeline: None,
            mode: None,
            equalizer: 0,
            notice: None,
        }
    }

    /// The state after event `e`. A notice from before is dropped. Quit
    /// leaves the pipeline to be torn down; the other events act according
    /// to the current view.
    pub open spec fn stepped(self, e: Event) -> SessionView {
        let s = SessionView { notice: None, ..self };
        if e == Event::Quit {
            SessionView {
                pipeline: None,
                view: if s.view == View::Streaming {
                    View::SearchResults
                } else {
                    s.view
                },
                ..s
            }
        } else {
            match s.view {
                View::InitialSelection => match e {
                    Event::Up => SessionView {
                        mode_cursor: if s.mode_cursor > 0 {
                            s.mode_cursor - 1
                        } else {
                            s.mode_cursor
                        },
                        ..s
                    },
                    Event::Down => SessionView {
                        mode_cursor: if s.mode_cursor + 1 < MODE_COUNT {
                            s.mode_cursor + 1
                        } else {
                            s.mode_cursor
                        },
                        ..s
                    },
                    Event::Confirm => if s.mode_cursor == 0 {
                        SessionView {
                            mode: Some(Mode::Stream),
                            source: Source::YouTube,
                            view: View::SearchInput,
                            ..s
                        }
                    } else {
                        SessionView { mode: Some(Mode::Download), view: View::SearchInput, ..s }
                    },
                    _ => s,
                },
                View::SearchInput => match e {
                    Event::Char(c) => SessionView { query: s.query.push(c), ..s },
                    Event::Backspace => if s.query.len() > 0 {
                        SessionView { query: s.query.drop_last(), ..s }
                    } else {
                        s
                    },
                    Event::Confirm => if s.mode == Some(Mode::Download) {
                        SessionView { view: View::SourceSelection, ..s }
                    } else {
                        s
                    },
                    Event::Back => SessionView { view: View::InitialSelection, ..s },
                    _ => s,
                },
                View::SourceSelection => match e {
                    Event::Up => SessionView {
                        source_cursor: if s.source_cursor > 0 {
                            s.source_cursor - 1
                        } else {
                            s.source_cursor
                        },
                        ..s
                    },
                    Event::Down => SessionView {
                        source_cursor: if s.source_cursor + 1 < SOURCE_COUNT {
                            s.source_cursor + 1
                        } else {
                            s.source_cursor
                        },
                        ..s
                    },
                    Event::Confirm => SessionView { source: source_at(s.source_cursor), ..s },
                    Event::Back => SessionView { view: View::SearchInput, ..s },
                    _ => s,
                },
                View::SearchResults => match e {
                    Event::Up => if s.cursor == Some(0int) {
                        SessionView { view: results_parent(s.mode), ..s }
                    } else {
                        SessionView { cursor: cursor_up(s.cursor), ..s }
                    },
                    Event::Down => SessionView {
                        cursor: cursor_down(s.cursor, s.results.len() as int),
                        ..s
                    },
                    Event::Confirm => if s.cursor is Some && s.mode == Some(Mode::Download) {
                        SessionView { view: View::Downloading, ..s }
                    } else {
                        s
                    },
                    Event::Back => SessionView { view: results_parent(s.mode), ..s },
                    _ => s,
                },
                View::Streaming => match e {
                    Event::SetEqualizer(n) => SessionView { equalizer: n as int, ..s },
                    Event::Back => SessionView { pipeline: None, view: View::SearchResults, ..s },
                    _ => s,
                },
                View::Downloading => match e {
                    Event::Back => SessionView { view: View::SearchResults, ..s },
                    _ => s,
                },
            }
        }
    }

    /// Whether `act` is the outside work that event `e` asks for in this
    /// state: a search on confirming the query (streaming) or the catalog
    /// (downloading), the start of a pipeline or a download on confirming a
    /// track, a signal on toggling the pause, a teardown on leaving the
    /// stream, clearing the status on leaving the download, and on quitting
    /// the end of the session with the pipeline to tear down.
    pub open spec fn emits(self, e: Event, act: Action) -> bool {
        if e == Event::Quit {
            act == Action::Exit(self.pipeline)
        } else {
            match (self.view, e) {
                (View::SearchInput, Event::Confirm) => if self.mode == Some(Mode::Stream) {
                    act matches Action::Search { query, source } && query@ == self.query && source
                        == self.source
                } else {
                    act is Nothing
                },
                (View::SourceSelection, Event::Confirm) => act matches Action::Search {
                    query,
                    source,
                } && query@ == self.query && source == source_at(self.source_cursor),
                (View::SearchResults, Event::Confirm) => match self.cursor {
                    Some(i) => if self.mode == Some(Mode::Stream) {
                        act matches Action::StartStream { identifier } && identifier@
                            == self.results[i].identifier@
                    } else if self.mode == Some(Mode::Download) {
                        act matches Action::StartDownload { identifier, title, source }
                            && identifier@ == self.results[i].identifier@ && title@
                            == self.results[i].title@ && source == self.source
                    } else {
                        act is Nothing
                    },
                    None => act is Nothing,
                },
                (View::Streaming, Event::TogglePause) => match self.pipeline {
                    Some(h) => act == Action::SendSignal { pid: h.pid, signal: h.toggle_signal() },
                    None => act is Nothing,
                },
                (View::Streaming, Event::Back) => match self.pipeline {
                    Some(h) => act == Action::Teardown(h),
                    None => act is Nothing,
                },
                (View::Downloading, Event::Back) => act is ClearDownloadStatus,
                _ => act is Nothing,
            }
        }
    }
}

impl SessionView {
    /// Whether a search was asked for and its outcome is awaited: the query
    /// was confirmed for a stream, or a catalog was confirmed for a download.
    pub open spec fn awaits_search(self) -> bool {
        (self.view == View::SearchInput && self.mode == Some(Mode::Stream)) || self.view
            == View::SourceSelection
    }

    /// The state once a search ends with `outcome`: the tracks found are
    /// listed with the cursor on the first (absent when none was found); a
    /// failure is shown and the view stays where the search was asked for.
    pub open spec fn after_search(self, outcome: Result<Vec<SearchResult>, String>) -> SessionView {
        if !self.awaits_search() {
            self
        } else {
            match outcome {
                Ok(found) => SessionView {
                    results: found@,
                    cursor: if found@.len() == 0 {
                        None
                    } else {
                        Some(0)
                    },
                    view: View::SearchResults,
                    notice: None,
                    ..self
                },
                Err(why) => SessionView { notice: Some(SessionError::Search(why)), ..self },
            }
        }
    }

    /// Whether the start of a pipeline for the selected track is awaited.
    pub open spec fn awaits_stream(self) -> bool {
        self.view == View::SearchResults && self.mode == Some(Mode::Stream) && self.cursor is Some
    }

    /// The state once a pipeline start ends with `outcome`, the play
    /// process's identifier or why it failed: streaming with a fresh,
    /// playing handle, or still on the results with the failure shown.
    pub open spec fn after_stream_start(self, outcome: Result<u32, String>) -> SessionView {
        if !self.awaits_stream() {
            self
        } else {
            match outcome {
                Ok(pid) => SessionView {
                    view: View::Streaming,
                    pipeline: Some(PipelineHandle { pid, paused: false }),
                    notice: None,
                    ..self
                },
                Err(why) => SessionView { notice: Some(SessionError::Spawn(why)), ..self },
            }
        }
    }

    /// The state once the pause toggle signal was sent or failed: the flag
    /// flips only on delivery; a failed delivery is shown instead.
    pub open spec fn after_toggle(self, delivered: bool) -> SessionView {
        match self.pipeline {
            Some(h) => if delivered {
                SessionView { pipeline: Some(h.after_signal(true)), ..self }
            } else {
                SessionView { notice: Some(SessionError::Signal(h.toggle_signal())), ..self }
            },
            None => SessionView { notice: Some(SessionError::NoPipeline), ..self },
        }
    }
}

/// Every event keeps the session's invariant.
pub proof fn lemma_step_keeps_wf(s: SessionView, e: Event)
    requires
        s.wf(),
    ensures
        s.stepped(e).wf(),
{
}

/// The interactive session: the current view, the query, the tracks found,
/// the cursors, the chosen mode and catalog, and the live pipeline if a
/// track is streaming.
pub struct AppUi {
    pub search_input: String,
    pub search_results: Vec<SearchResult>,
    pub selected_result_index: Option<usize>,
    pub selected_mode_index: usize,
    pub selected_source_index: usize,
    pub source: Source,
    pub current_view: View,
    pub pipeline: Option<PipelineHandle>,
    pub mode: Option<Mode>,
    pub current_equalizer: usize,
    pub notice: Option<SessionError>,
}

impl vstd::view::View for AppUi {
    type V = SessionView;

    open spec fn view(&self) -> SessionView {
        SessionView {
            query: self.search_input@,
            results: self.search_results@,
            cursor: match self.selected_result_index {
                Some(i) => Some(i as int),
                None => None,
            },
            mode_cursor: self.selected_mode_index as int,
            source_cursor: self.selected_source_index as int,
            source: self.source,
            view: self.current_view,
            pipeline: self.pipeline,
            mode: self.mode,
            equalizer: self.current_equalizer as int,
            notice: self.notice,
        }
    }
}

fn results_parent_of(mode: Option<Mode>) -> (r: View)
    ensures
        r == results_parent(mode),
{
    match mode {
        Some(Mode::Download) => View::SourceSelection,
        _ => View::SearchInput,
    }
}

impl AppUi {
    pub open spec fn wf(&self) -> bool {
        self@.wf()
    }

    pub fn new() -> (r: AppUi)
        ensures
            r@ == SessionView::initial(),
            r.wf(),
    {
        AppUi {
            search_input: String::new(),
            search_results: Vec::new(),
            selected_result_index: None,
            selected_mode_index: 0,
            selected_source_index: 0,
            source: Source::YouTube,
            current_view: View::InitialSelection,
            pipeline: None,
            mode: None,
            current_equalizer: 0,
            notice: None,
        }
    }

    /// Applies one input event and returns the outside work it calls for.
    pub fn dispatch(&mut self, e: Event) -> (act: Action)
        requires
            old(self).wf(),
        ensures
            final(self).wf(),
            final(self)@ == old(self)@.stepped(e),
            old(self)@.emits(e, act),
    {
        proof {
            lemma_step_keeps_wf(self@, e);
        }
        self.notice = None;
        match e {
            Event::Quit => {
                let taken = self.stop_streaming();
                return Action::Exit(taken);
            },
            _ => {},
        }
        match self.current_view {
            View::InitialSelection => self.handle_initial_selection(e),
            View::SearchInput => self.handle_search_input(e),
            View::SourceSelection => self.handle_source_selection(e),
            View::SearchResults => self.handle_search_results(e),
            View::Streaming => self.handle_streaming(e),
            View::Downloading => self.handle_downloading(e),
        }
    }

    fn handle_initial_selection(&mut self, e: Event) -> (act: Action)
        requires
            old(self).wf(),
            old(self).notice is None,
            old(self).current_view == View::InitialSelection,
            e != Event::Quit,
        ensures
            final(self)@ == old(self)@.stepped(e),
            old(self)@.emits(e, act),
    {
        match e {
            Event::Up => {
                if self.selected_mode_index > 0 {
                    self.selected_mode_index = self.selected_mode_index - 1;
                }
            },
            Event::Down => {
                if self.selected_mode_index + 1 < MODE_COUNT {
                    self.selected_mode_index = self.selected_mode_index + 1;
                }
            },
            Event::Confirm => {
                if self.selected_mode_index == 0 {
                    self.mode = Some(Mode::Stream);
                    self.source = Source::YouTube;
                } else {
                    self.mode = Some(Mode::Download);
                }
                self.current_view = View::SearchInput;
            },
            _ => {},
        }
        Action::Nothing
    }

    fn handle_search_input(&mut self, e: Event) -> (act: Action)
        requires
            old(self).wf(),
            old(self).notice is None,
            old(self).current_view == View::SearchInput,
            e != Event::Quit,
        ensures
            final(self)@ == old(self)@.stepped(e),
            old(self)@.emits(e, act),
    {
        match e {
            Event::Char(c) => {
                self.search_input.push(c);
                Action::Nothing
            },
            Event::Backspace => {
                drop_last_char(&mut self.search_input);
                Action::Nothing
            },
            Event::Confirm => match self.mode {
                Some(Mode::Stream) => Action::Search {
                    query: self.search_input.clone(),
                    source: self.source,
                },
                Some(Mode::Download) => {
                    self.current_view = View::SourceSelection;
                    Action::Nothing
                },
                None => Action::Nothing,
            },
            Event::Back => {
                self.current_view = View::InitialSelection;
                Action::Nothing
            },
            _ => Action::Nothing,
        }
    }

    fn handle_source_selection(&mut self, e: Event) -> (act: Action)
        requires
            old(self).wf(),
            old(self).notice is None,
            old(self).current_view == View::SourceSelection,
            e != Event::Quit,
        ensures
            final(self)@ == old(self)@.stepped(e),
            old(self)@.emits(e, act),
    {
        match e {
            Event::Up => {
                if self.selected_source_index > 0 {
                    self.selected_source_index = self.selected_source_index - 1;
                }
                Action::Nothing
            },
            Event::Down => {
                if self.selected_source_index + 1 < SOURCE_COUNT {
                    self.selected_source_index = self.selected_source_index + 1;
                }
                Action::Nothing
            },
            Event::Confirm => {
                self.source = Source::from_index(self.selected_source_index);
                Action::Search { query: self.search_input.clone(), source: self.source }
            },
            Event::Back => {
                self.current_view = View::SearchInput;
                Action::Nothing
            },
            _ => Action::Nothing,
        }
    }

    fn handle_search_results(&mut self, e: Event) -> (act: Action)
        requires
            old(self).wf(),
            old(self).notice is None,
            old(self).current_view == View::SearchResults,
            e != Event::Quit,
        ensures
            final(self)@ == old(self)@.stepped(e),
            old(self)@.emits(e, act),
    {
        match e {
            Event::Up => {
                match self.selected_result_index {
                    Some(i) => {
                        if i == 0 {
                            self.current_view = results_parent_of(self.mode);
                        } else {
                            self.selected_result_index = Some(i - 1);
                        }
                    },
                    None => {},
                }
                Action::Nothing
            },
            Event::Down => {
                match self.selected_result_index {
                    Some(i) => {
                        if i < self.search_results.len() - 1 {
                            self.selected_result_index = Some(i + 1);
                        }
                    },
                    None => {},
                }
                Action::Nothing
            },
            Event::Confirm => match self.selected_result_index {
                Some(i) => {
                    let act = match self.mode {
                        Some(Mode::Stream) => Action::StartStream {
                            identifier: self.search_results[i].identifier.clone(),
                        },
                        Some(Mode::Download) => Action::StartDownload {
                            identifier: self.search_results[i].identifier.clone(),
                            title: self.search_results[i].title.clone(),
                            source: self.source,
                        },
                        None => Action::Nothing,
                    };
                    match self.mode {
                        Some(Mode::Download) => {
                            self.current_view = View::Downloading;
                        },
                        _ => {},
                    }
                    act
                },
                None => Action::Nothing,
            },
            Event::Back => {
                self.current_view = results_parent_of(self.mode);
                Action::Nothing
            },
            _ => Action::Nothing,
        }
    }

    fn handle_streaming(&mut self, e: Event) -> (act: Action)
        requires
            old(self).wf(),
            old(self).notice is None,
            old(self).current_view == View::Streaming,
            e != Event::Quit,
        ensures
            final(self)@ == old(self)@.stepped(e),
            old(self)@.emits(e, act),
    {
        match e {
            Event::TogglePause => match self.pipeline {
                Some(h) => Action::SendSignal { pid: h.pid, signal: h.pause_signal() },
                None => Action::Nothing,
            },
            Event::SetEqualizer(n) => {
                self.current_equalizer = n;
                Action::Nothing
            },
            Event::Back => match self.stop_streaming() {
                Some(h) => Action::Teardown(h),
                None => Action::Nothing,
            },
            _ => Action::Nothing,
        }
    }

    fn handle_downloading(&mut self, e: Event) -> (act: Action)
        requires
            old(self).wf(),
            old(self).notice is None,
            old(self).current_view == View::Downloading,
            e != Event::Quit,
        ensures
            final(self)@ == old(self)@.stepped(e),
            old(self)@.emits(e, act),
    {
        match e {
            Event::Back => {
                self.current_view = View::SearchResults;
                Action::ClearDownloadStatus
            },
            _ => Action::Nothing,
        }
    }

    /// Completes the search that `dispatch` asked for with what the catalog
    /// returned. Outside a pending search the session is left unchanged.
    pub fn search(&mut self, outcome: Result<Vec<SearchResult>, String>)
        requires
            old(self).wf(),
        ensures
            final(self).wf(),
            final(self)@ == old(self)@.after_search(outcome),
    {
        let pending = match self.current_view {
            View::SearchInput => match self.mode {
                Some(Mode::Stream) => true,
                _ => false,
            },
            View::SourceSelection => true,
            _ => false,
        };
        if !pending {
            return ;
        }
        match outcome {
            Ok(found) => {
                let none = found.len() == 0;
                self.search_results = found;
                self.selected_result_index = if none {
                    None
                } else {
                    Some(0)
                };
                self.current_view = View::SearchResults;
                self.notice = None;
            },
            Err(why) => {
                self.notice = Some(SessionError::Search(why));
            },
        }
    }

    /// Completes the pipeline start that `dispatch` asked for, with the play
    /// process's identifier or why the start failed. Returns whether the
    /// session took the pipeline; when it did not, the caller tears it down.
    pub fn stream_started(&mut self, outcome: Result<u32, String>) -> (taken: bool)
        requires
            old(self).wf(),
        ensures
            final(self).wf(),
            final(self)@ == old(self)@.after_stream_start(outcome),
            taken == (old(self)@.awaits_stream() && outcome is Ok),
    {
        let pending = match self.current_view {
            View::SearchResults => match (self.mode, self.selected_result_index) {
                (Some(Mode::Stream), Some(_)) => true,
                _ => false,
            },
            _ => false,
        };
        if !pending {
            return false;
        }
        match outcome {
            Ok(pid) => {
                self.pipeline = Some(PipelineHandle::new(pid));
                self.current_view = View::Streaming;
                self.notice = None;
                true
            },
            Err(why) => {
                self.notice = Some(SessionError::Spawn(why));
                false
            },
        }
    }

    /// Records whether the pause toggle signal that `dispatch` asked for was
    /// delivered. The pause flag flips only on delivery; otherwise the
    /// failure is returned and shown, and the flag stays as it was.
    pub fn toggle_pause(&mut self, delivered: bool) -> (r: Result<(), SessionError>)
        requires
            old(self).wf(),
        ensures
            final(self).wf(),
            final(self)@ == old(self)@.after_toggle(delivered),
            match old(self)@.pipeline {
                Some(h) => if delivered {
                    r is Ok
                } else {
                    r matches Err(SessionError::Signal(sg)) && sg == h.toggle_signal()
                },
                None => r matches Err(SessionError::NoPipeline),
            },
    {
        match &mut self.pipeline {
            Some(h) => {
                if delivered {
                    h.record_signal(true);
                    Ok(())
                } else {
                    let sg = h.pause_signal();
                    self.notice = Some(SessionError::Signal(sg));
                    Err(SessionError::Signal(sg))
                }
            },
            None => {
                self.notice = Some(SessionError::NoPipeline);
                Err(SessionError::NoPipeline)
            },
        }
    }

    /// Whether the results list is shown with nothing in it, the cue for the
    /// explicit "no results" indicator.
    pub fn shows_no_results(&self) -> (r: bool)
        ensures
            r == (self@.view == View::SearchResults && self@.results.len() == 0),
    {
        match self.current_view {
            View::SearchResults => self.search_results.len() == 0,
            _ => false,
        }
    }

    /// Takes the pipeline out of the session, for its processes to be
    /// killed and reaped, and leaves the stream for the results list.
    pub fn stop_streaming(&mut self) -> (taken: Option<PipelineHandle>)
        ensures
            taken == old(self)@.pipeline,
            final(self)@ == (SessionView {
                pipeline: None,
                view: if old(self)@.view == View::Streaming {
                    View::SearchResults
                } else {
                    old(self)@.view
                },
                ..old(self)@
            }),
    {
        let taken = self.pipeline.take();
        match self.current_view {
            View::Streaming => {
                self.current_view = View::SearchResults;
            },
            _ => {},
        }
        taken
    }
}

impl SessionView {
    /// The state after the events of `events`, in order.
    pub open spec fn run(self, events: Seq<Event>) -> SessionView
        decreases events.len(),
    {
        if events.len() == 0 {
            self
        } else {
            self.stepped(events[0]).run(events.drop_first())
        }
    }
}

/// Whatever events arrive, the session keeps its invariant: in particular
/// the results cursor stays within the list, and is absent while the list
/// is empty.
pub proof fn lemma_run_keeps_wf(s: SessionView, events: Seq<Event>)
    requires
        s.wf(),
    ensures
        s.run(events).wf(),
        cursor_valid(s.run(events).cursor, s.run(events).results.len() as int),
        s.run(events).results.len() == 0 ==> s.run(events).cursor is None,
    decreases events.len(),
{
    if events.len() > 0 {
        lemma_step_keeps_wf(s, events[0]);
        lemma_run_keeps_wf(s.stepped(events[0]), events.drop_first());
    }
}

/// Entering the stream: once a pending pipeline start ends, the session
/// either streams with a handle or shows why the start failed and stays on
/// the results; never neither.
pub proof fn lemma_stream_entry(s: SessionView, outcome: Result<u32, String>)
    requires
        s.wf(),
        s.awaits_stream(),
    ensures
        ({
            let t = s.after_stream_start(outcome);
            ||| t.view == View::Streaming && t.pipeline is Some
            ||| t.view == View::SearchResults && t.pipeline is None && t.notice matches Some(
                SessionError::Spawn(_),
            )
        }),
{
}

/// Leaving the stream, by going back or quitting: no handle is left in the
/// session, and the handle that was there is handed out to be torn down.
pub proof fn lemma_leave_stream(s: SessionView, e: Event, act: Action)
    requires
        s.wf(),
        s.view == View::Streaming,
        e == Event::Back || e == Event::Quit,
        s.emits(e, act),
    ensures
        s.stepped(e).pipeline is None,
        s.stepped(e).view == View::SearchResults,
        s.pipeline matches Some(h) && (act == Action::Teardown(h) || act == Action::Exit(Some(h))),
{
}

/// Pausing and then resuming a stream, both signals delivered, gives back
/// the pause flag it had; when the resume is not delivered, the stream stays
/// paused and the failure is shown.
pub proof fn lemma_toggle_pair(s: SessionView)
    requires
        s.wf(),
        s.pipeline matches Some(h) && !h.paused,
    ensures
        s.after_toggle(true).after_toggle(true).pipeline == s.pipeline,
        s.after_toggle(true).after_toggle(false).pipeline matches Some(h) && h.paused,
        s.after_toggle(true).after_toggle(false).notice == Some(
            SessionError::Signal(Signal::Cont),
        ),
{
    let h = s.pipeline->0;
    crate::pipeline::lemma_pause_resume(h);
}

/// On the results list, `Down` moves the cursor one track down, stopping at
/// the last; `Up` moves it one track up, and from the first track goes back
/// to where the search was asked for; over an empty list the cursor stays
/// absent. The list itself never changes, and no outside work is asked for.
pub proof fn lemma_results_cursor_moves(s: SessionView, e: Event, act: Action)
    requires
        s.wf(),
        s.view == View::SearchResults,
        e == Event::Up || e == Event::Down,
        s.emits(e, act),
    ensures
        s.stepped(e).results == s.results,
        act is Nothing,
        s.cursor is None ==> s.stepped(e).cursor is None && s.stepped(e).view
            == View::SearchResults,
        s.cursor is Some && e == Event::Down ==> s.stepped(e).cursor == Some(
            if s.cursor->0 + 1 < s.results.len() {
                s.cursor->0 + 1
            } else {
                s.results.len() - 1
            },
        ) && s.stepped(e).view == View::SearchResults,
        s.cursor is Some && s.cursor->0 > 0 && e == Event::Up ==> s.stepped(e).cursor == Some(
            s.cursor->0 - 1,
        ) && s.stepped(e).view == View::SearchResults,
        s.cursor == Some(0int) && e == Event::Up ==> s.stepped(e).cursor == Some(0int)
            && s.stepped(e).view == results_parent(s.mode),
{
}

/// On the mode list and the catalog list, `Up` and `Down` move the cursor one
/// entry, clamped to the list (never wrapping), and the view stays.
pub proof fn lemma_choice_cursors_clamp(s: SessionView, e: Event)
    requires
        s.wf(),
        s.view == View::InitialSelection || s.view == View::SourceSelection,
        e == Event::Up || e == Event::Down,
    ensures
        s.stepped(e).view == s.view,
        s.view == View::InitialSelection ==> s.stepped(e).mode_cursor == if e == Event::Up {
            if s.mode_cursor > 0 {
                s.mode_cursor - 1
            } else {
                0
            }
        } else {
            if s.mode_cursor + 1 < MODE_COUNT {
                s.mode_cursor + 1
            } else {
                MODE_COUNT - 1
            }
        },
        s.view == View::SourceSelection ==> s.stepped(e).source_cursor == if e == Event::Up {
            if s.source_cursor > 0 {
                s.source_cursor - 1
            } else {
                0
            }
        } else {
            if s.source_cursor + 1 < SOURCE_COUNT {
                s.source_cursor + 1
            } else {
                SOURCE_COUNT - 1
            }
        },
        0 <= s.stepped(e).mode_cursor < MODE_COUNT,
        0 <= s.stepped(e).source_cursor < SOURCE_COUNT,
{
}

/// A search that finds nothing shows the empty results list with no cursor,
/// and confirming there changes nothing and asks for no outside work.
pub proof fn lemma_empty_search(s: SessionView, found: Vec<SearchResult>, act: Action)
    requires
        s.wf(),
        s.awaits_search(),
        found@.len() == 0,
        s.after_search(Ok(found)).emits(Event::Confirm, act),
    ensures
        s.after_search(Ok(found)).view == View::SearchResults,
        s.after_search(Ok(found)).results.len() == 0,
        s.after_search(Ok(found)).cursor is None,
        s.after_search(Ok(found)).stepped(Event::Confirm) == s.after_search(Ok(found)),
        act is Nothing,
{
}

/// Leaving the stream, by going back or quitting, leaves no handle in the
/// session; and the sampler, asked to stop, zeroes the levels on its next
/// tick, whatever they showed, whether the play process still ran and
/// whatever entropy it drew.
pub proof fn lemma_leave_stream_goes_silent(
    s: SessionView,
    e: Event,
    levels: Seq<u8>,
    live: bool,
    paused: bool,
    entropy: Seq<u8>,
)
    requires
        s.wf(),
        s.view == View::Streaming,
        e == Event::Back || e == Event::Quit,
    ensures
        s.stepped(e).pipeline is None,
        s.stepped(e).view == View::SearchResults,
        levels_after(levels, step_for(live, paused, true), entropy) == silent(),
{
    crate::sampler::lemma_stopped_sampler_goes_silent(levels, live, paused, true, entropy);
}

} // verus!
