use pj_player::catalog::{SearchResult, Source};
use pj_player::pipeline::{PipelineHandle, Signal};
use pj_player::sampler::{sampler_step, Levels};
use pj_player::session::{event_for_key, Action, AppUi, Event, Key, Mode, SessionError, View};

fn track(id: &str, title: &str, source: Source) -> SearchResult {
    SearchResult { identifier: id.to_string(), title: title.to_string(), source }
}

fn type_query(app: &mut AppUi, text: &str) {
    for c in text.chars() {
        assert_eq!(app.dispatch(Event::Char(c)), Action::Nothing);
    }
}

/// A session on the results of a streaming search for "test".
fn streaming_results(found: Vec<SearchResult>) -> AppUi {
    let mut app = AppUi::new();
    app.dispatch(Event::Confirm);
    type_query(&mut app, "test");
    let act = app.dispatch(Event::Confirm);
    assert_eq!(act, Action::Search { query: "test".to_string(), source: Source::YouTube });
    app.search(Ok(found));
    app
}

fn three_tracks() -> Vec<SearchResult> {
    vec![
        track("a1", "First", Source::YouTube),
        track("b2", "Second", Source::YouTube),
        track("c3", "Third", Source::YouTube),
    ]
}

#[test]
fn session_starts_on_mode_list() {
    let app = AppUi::new();
    assert_eq!(app.current_view, View::InitialSelection);
    assert_eq!(app.selected_result_index, None);
    assert!(app.pipeline.is_none());
    assert!(app.mode.is_none());
    assert_eq!(app.search_input, "");
}

#[test]
fn mode_cursor_is_clamped() {
    let mut app = AppUi::new();
    app.dispatch(Event::Up);
    assert_eq!(app.selected_mode_index, 0);
    app.dispatch(Event::Down);
    app.dispatch(Event::Down);
    assert_eq!(app.selected_mode_index, 1);
    app.dispatch(Event::Up);
    assert_eq!(app.selected_mode_index, 0);
}

#[test]
fn stream_search_lists_results_with_cursor_on_first() {
    let app = streaming_results(three_tracks());
    assert_eq!(app.current_view, View::SearchResults);
    assert_eq!(app.mode, Some(Mode::Stream));
    assert_eq!(app.selected_result_index, Some(0));
    assert_eq!(app.search_results.len(), 3);
    assert!(!app.shows_no_results());
}

#[test]
fn query_editing_appends_and_removes() {
    let mut app = AppUi::new();
    app.dispatch(Event::Confirm);
    app.dispatch(Event::Backspace);
    assert_eq!(app.search_input, "");
    type_query(&mut app, "héllo");
    app.dispatch(Event::Backspace);
    assert_eq!(app.search_input, "héll");
    app.dispatch(Event::Back);
    assert_eq!(app.current_view, View::InitialSelection);
    assert_eq!(app.search_input, "héll");
}

#[test]
fn results_cursor_stays_within_list() {
    let mut app = streaming_results(three_tracks());
    for _ in 0..5 {
        app.dispatch(Event::Down);
    }
    assert_eq!(app.selected_result_index, Some(2));
    app.dispatch(Event::Up);
    assert_eq!(app.selected_result_index, Some(1));
    app.dispatch(Event::Up);
    assert_eq!(app.selected_result_index, Some(0));
    assert_eq!(app.current_view, View::SearchResults);
    app.dispatch(Event::Up);
    assert_eq!(app.current_view, View::SearchInput);
    assert_eq!(app.selected_result_index, Some(0));
}

#[test]
fn empty_results_show_indicator_and_ignore_confirm() {
    let mut app = streaming_results(Vec::new());
    assert_eq!(app.current_view, View::SearchResults);
    assert_eq!(app.selected_result_index, None);
    assert!(app.shows_no_results());
    assert_eq!(app.dispatch(Event::Down), Action::Nothing);
    assert_eq!(app.dispatch(Event::Up), Action::Nothing);
    assert_eq!(app.selected_result_index, None);
    assert_eq!(app.dispatch(Event::Confirm), Action::Nothing);
    assert_eq!(app.current_view, View::SearchResults);
    assert!(app.pipeline.is_none());
}

#[test]
fn search_failure_is_shown_on_the_query_view() {
    let mut app = AppUi::new();
    app.dispatch(Event::Confirm);
    type_query(&mut app, "x");
    app.dispatch(Event::Confirm);
    app.search(Err("catalog unreachable".to_string()));
    assert_eq!(app.current_view, View::SearchInput);
    assert_eq!(app.notice, Some(SessionError::Search("catalog unreachable".to_string())));
    app.dispatch(Event::Char('y'));
    assert_eq!(app.notice, None);
}

#[test]
fn search_outcome_outside_a_pending_search_is_ignored() {
    let mut app = AppUi::new();
    app.search(Ok(three_tracks()));
    assert_eq!(app.current_view, View::InitialSelection);
    assert!(app.search_results.is_empty());
}

#[test]
fn confirm_on_track_asks_for_pipeline() {
    let mut app = streaming_results(three_tracks());
    app.dispatch(Event::Down);
    let act = app.dispatch(Event::Confirm);
    assert_eq!(act, Action::StartStream { identifier: "b2".to_string() });
    assert_eq!(app.current_view, View::SearchResults);
    assert!(app.stream_started(Ok(4242)));
    assert_eq!(app.current_view, View::Streaming);
    assert_eq!(app.pipeline, Some(PipelineHandle { pid: 4242, paused: false }));
}

#[test]
fn pipeline_spawn_failure_keeps_results_and_shows_error() {
    let mut app = streaming_results(three_tracks());
    app.dispatch(Event::Confirm);
    assert!(!app.stream_started(Err("ffplay not found".to_string())));
    assert_eq!(app.current_view, View::SearchResults);
    assert!(app.pipeline.is_none());
    assert_eq!(app.notice, Some(SessionError::Spawn("ffplay not found".to_string())));
}

#[test]
fn stream_start_outside_results_is_refused() {
    let mut app = AppUi::new();
    assert!(!app.stream_started(Ok(7)));
    assert!(app.pipeline.is_none());
    assert_eq!(app.current_view, View::InitialSelection);
}

#[test]
fn pause_then_resume_restores_flag() {
    let mut app = streaming_results(three_tracks());
    app.dispatch(Event::Confirm);
    app.stream_started(Ok(99));
    let act = app.dispatch(Event::TogglePause);
    assert_eq!(act, Action::SendSignal { pid: 99, signal: Signal::Stop });
    assert_eq!(app.toggle_pause(true), Ok(()));
    assert!(app.pipeline.unwrap().paused);
    let act = app.dispatch(Event::TogglePause);
    assert_eq!(act, Action::SendSignal { pid: 99, signal: Signal::Cont });
    assert_eq!(app.toggle_pause(true), Ok(()));
    assert!(!app.pipeline.unwrap().paused);
}

#[test]
fn failed_resume_stays_paused() {
    let mut app = streaming_results(three_tracks());
    app.dispatch(Event::Confirm);
    app.stream_started(Ok(5));
    app.dispatch(Event::TogglePause);
    app.toggle_pause(true).unwrap();
    app.dispatch(Event::TogglePause);
    assert_eq!(app.toggle_pause(false), Err(SessionError::Signal(Signal::Cont)));
    assert!(app.pipeline.unwrap().paused);
    assert_eq!(app.notice, Some(SessionError::Signal(Signal::Cont)));
}

#[test]
fn failed_pause_stays_playing() {
    let mut app = streaming_results(three_tracks());
    app.dispatch(Event::Confirm);
    app.stream_started(Ok(5));
    app.dispatch(Event::TogglePause);
    assert_eq!(app.toggle_pause(false), Err(SessionError::Signal(Signal::Stop)));
    assert!(!app.pipeline.unwrap().paused);
}

#[test]
fn toggle_without_pipeline_fails() {
    let mut app = AppUi::new();
    assert_eq!(app.toggle_pause(true), Err(SessionError::NoPipeline));
    assert!(app.pipeline.is_none());
}

#[test]
fn stream_pause_then_back_tears_everything_down() {
    let mut app = streaming_results(three_tracks());
    app.dispatch(Event::Confirm);
    app.stream_started(Ok(31337));
    let mut levels = Levels::new();
    levels.apply(sampler_step(true, false, false), &[13, 27, 5, 99, 250, 0, 1, 2, 3, 4]);
    assert_eq!(levels.level(0), 3);
    app.dispatch(Event::TogglePause);
    app.toggle_pause(true).unwrap();
    let act = app.dispatch(Event::Back);
    assert_eq!(act, Action::Teardown(PipelineHandle { pid: 31337, paused: true }));
    assert!(app.pipeline.is_none());
    assert_eq!(app.current_view, View::SearchResults);
    levels.apply(sampler_step(false, true, true), &[9; 10]);
    for i in 0..levels.len() {
        assert_eq!(levels.level(i), 0);
    }
    assert_eq!(levels.len(), 10);
}

#[test]
fn equalizer_style_is_set_while_streaming() {
    let mut app = streaming_results(three_tracks());
    app.dispatch(Event::Confirm);
    app.stream_started(Ok(1));
    app.dispatch(Event::SetEqualizer(3));
    assert_eq!(app.current_equalizer, 3);
    app.dispatch(Event::Back);
    assert_eq!(app.current_equalizer, 3);
}

#[test]
fn quit_hands_out_the_live_pipeline() {
    let mut app = streaming_results(three_tracks());
    app.dispatch(Event::Confirm);
    app.stream_started(Ok(8));
    let act = app.dispatch(Event::Quit);
    assert_eq!(act, Action::Exit(Some(PipelineHandle { pid: 8, paused: false })));
    assert!(app.pipeline.is_none());
    let mut idle = AppUi::new();
    assert_eq!(idle.dispatch(Event::Quit), Action::Exit(None));
}

#[test]
fn download_flow_picks_catalog_and_track() {
    let mut app = AppUi::new();
    app.dispatch(Event::Down);
    app.dispatch(Event::Confirm);
    assert_eq!(app.mode, Some(Mode::Download));
    assert_eq!(app.current_view, View::SearchInput);
    type_query(&mut app, "jazz");
    assert_eq!(app.dispatch(Event::Confirm), Action::Nothing);
    assert_eq!(app.current_view, View::SourceSelection);
    app.dispatch(Event::Down);
    app.dispatch(Event::Down);
    assert_eq!(app.selected_source_index, 1);
    let act = app.dispatch(Event::Confirm);
    assert_eq!(
        act,
        Action::Search { query: "jazz".to_string(), source: Source::InternetArchive }
    );
    app.search(Ok(vec![track("item-1", "Blue in Green", Source::InternetArchive)]));
    assert_eq!(app.current_view, View::SearchResults);
    let act = app.dispatch(Event::Confirm);
    assert_eq!(
        act,
        Action::StartDownload {
            identifier: "item-1".to_string(),
            title: "Blue in Green".to_string(),
            source: Source::InternetArchive,
        }
    );
    assert_eq!(app.current_view, View::Downloading);
    assert_eq!(app.dispatch(Event::Back), Action::ClearDownloadStatus);
    assert_eq!(app.current_view, View::SearchResults);
    app.dispatch(Event::Back);
    assert_eq!(app.current_view, View::SourceSelection);
    app.dispatch(Event::Back);
    assert_eq!(app.current_view, View::SearchInput);
}

#[test]
fn stream_mode_forces_primary_catalog() {
    let mut app = AppUi::new();
    app.dispatch(Event::Down);
    app.dispatch(Event::Confirm);
    app.dispatch(Event::Confirm);
    app.dispatch(Event::Down);
    app.dispatch(Event::Confirm);
    assert_eq!(app.source, Source::InternetArchive);
    app.search(Err("down".to_string()));
    assert_eq!(app.current_view, View::SourceSelection);
    app.dispatch(Event::Back);
    app.dispatch(Event::Back);
    app.dispatch(Event::Up);
    app.dispatch(Event::Confirm);
    assert_eq!(app.mode, Some(Mode::Stream));
    assert_eq!(app.source, Source::YouTube);
}

#[test]
fn keys_map_to_events_by_view() {
    assert_eq!(event_for_key(View::SearchInput, Key::Char('q')), Some(Event::Char('q')));
    assert_eq!(event_for_key(View::SearchResults, Key::Char('q')), None);
    assert_eq!(event_for_key(View::Streaming, Key::Char(' ')), Some(Event::TogglePause));
    assert_eq!(event_for_key(View::Streaming, Key::Char('1')), Some(Event::SetEqualizer(0)));
    assert_eq!(event_for_key(View::Streaming, Key::Char('9')), Some(Event::SetEqualizer(8)));
    assert_eq!(event_for_key(View::Streaming, Key::Char('0')), None);
    assert_eq!(event_for_key(View::Streaming, Key::Esc), Some(Event::Quit));
    assert_eq!(event_for_key(View::SearchInput, Key::Interrupt), Some(Event::Quit));
    assert_eq!(event_for_key(View::SearchResults, Key::Right), Some(Event::Confirm));
    assert_eq!(event_for_key(View::SearchResults, Key::Enter), Some(Event::Confirm));
    assert_eq!(event_for_key(View::Downloading, Key::Left), Some(Event::Back));
    assert_eq!(event_for_key(View::Downloading, Key::Other), None);
}

#[test]
fn signal_names() {
    assert_eq!(Signal::Stop.name(), "STOP");
    assert_eq!(Signal::Cont.name(), "CONT");
    let h = PipelineHandle::new(3);
    assert_eq!(h.pause_signal(), Signal::Stop);
}

#[test]
fn stopping_twice_is_harmless() {
    let mut app = streaming_results(three_tracks());
    app.dispatch(Event::Confirm);
    app.stream_started(Ok(12));
    assert_eq!(app.stop_streaming(), Some(PipelineHandle { pid: 12, paused: false }));
    assert_eq!(app.current_view, View::SearchResults);
    assert_eq!(app.stop_streaming(), None);
    assert_eq!(app.current_view, View::SearchResults);
}
