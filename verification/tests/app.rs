use bcp::album_page::AlbumDetail;
use bcp::app::{App, Effect, Message, PlaybackStart};
use bcp::layout::Area;
use bcp::library::{AlbumDownloadStatus, DownloadedAlbum, DownloadedTrack, LibraryIndex};
use bcp::models::{Album, Track};
use bcp::nav::Column;
use bcp::screens::{AppScreen, LoginStep};

fn track(n: u32, title: &str) -> Track {
    Track { title: title.to_string(), track_num: n, duration_ms: 60_000, stream_url: Some(format!("s{}", n)) }
}

fn album(id: u64, artist: &str, title: &str, tracks: Vec<Track>) -> Album {
    Album {
        item_id: id,
        album_title: title.to_string(),
        artist_name: artist.to_string(),
        item_url: format!("https://x/{}", id),
        art_url: None,
        date_added: None,
        tracks,
        about: None,
        credits: None,
        release_date: None,
        sale_item_id: None,
    }
}

fn loaded_app() -> App {
    let mut app = App::new(LibraryIndex::new());
    app.collection_loaded(vec![
        album(1, "Zed", "Zulu", vec![track(1, "Z one")]),
        album(2, "abba", "Arrival", vec![track(1, "Dancing"), track(2, "Money")]),
        album(3, "ABBA", "Voulez-Vous", vec![]),
        album(4, "Beck", "Odelay", vec![track(1, "Devils Haircut")]),
    ]);
    let pane = Area { x: 0, y: 0, width: 30, height: 12 };
    app.panes.artists = pane;
    app.panes.albums = Area { x: 30, ..pane };
    app.panes.tracks = Area { x: 60, ..pane };
    app
}

#[test]
fn new_collection_selects_first_artist() {
    let app = loaded_app();
    assert_eq!(app.screen, AppScreen::Main);
    assert_eq!(app.artist_index.artists, vec!["abba", "Beck", "Zed"]);
    assert_eq!(app.nav.artist_filtered, vec![0, 1, 2]);
    assert_eq!(app.nav.artist_state.selected, Some(0));
    assert_eq!(app.nav.album_filtered, vec![0, 1]);
    assert_eq!(app.nav.album_state.selected, Some(0));
    assert_eq!(app.nav.selected_album_idx, Some(1));
    assert_eq!(app.nav.track_filtered, vec![0, 1]);
    assert_eq!(app.nav.track_state.selected, Some(0));
    assert_eq!(app.selected_artist_name().map(|s| s.as_str()), Some("abba"));
}

#[test]
fn moving_down_the_artists_refills_the_albums() {
    let mut app = loaded_app();
    let e = app.update(Message::MoveDown);
    assert!(e.is_empty());
    assert_eq!(app.nav.artist_state.selected, Some(1));
    assert_eq!(app.nav.selected_album_idx, Some(3));
    assert_eq!(app.nav.track_filtered, vec![0]);
    app.update(Message::MoveToBottom);
    assert_eq!(app.nav.artist_state.selected, Some(2));
    assert_eq!(app.nav.selected_album_idx, Some(0));
    app.update(Message::MoveDown);
    assert_eq!(app.nav.artist_state.selected, Some(2));
    app.update(Message::MoveToTop);
    assert_eq!(app.nav.selected_album_idx, Some(1));
}

#[test]
fn focus_moves_right_and_loads_missing_tracks() {
    let mut app = loaded_app();
    assert!(app.update(Message::FocusRight).is_empty());
    assert_eq!(app.nav.focus, Column::Albums);
    app.update(Message::MoveDown);
    assert_eq!(app.nav.selected_album_idx, Some(2));
    assert!(app.nav.track_filtered.is_empty());
    let e = app.update(Message::FocusRight);
    assert_eq!(e, vec![Effect::LoadAlbumDetails(2)]);
    assert_eq!(app.nav.focus, Column::Tracks);
    app.update(Message::FocusLeft);
    assert_eq!(app.nav.focus, Column::Albums);
    app.update(Message::FocusLeft);
    assert_eq!(app.nav.focus, Column::Artists);
    app.update(Message::FocusLeft);
    assert_eq!(app.nav.focus, Column::Artists);
}

#[test]
fn loaded_details_fill_the_track_column() {
    let mut app = loaded_app();
    app.update(Message::FocusRight);
    app.update(Message::MoveDown);
    app.update(Message::Enter);
    assert_eq!(app.nav.focus, Column::Tracks);
    assert!(app.begin_remote_load(true));
    assert!(app.loading_tracks);
    assert!(!app.begin_remote_load(true));
    let detail = AlbumDetail {
        tracks: vec![track(1, "Voulez-Vous"), track(2, "Angeleyes")],
        about: Some("1979".to_string()),
        credits: None,
        release_date: None,
    };
    let e = app.update(Message::AlbumDetailLoaded { idx: 2, detail });
    assert_eq!(e, vec![Effect::SaveAlbumMetadata(2)]);
    assert!(!app.loading_tracks);
    assert_eq!(app.albums[2].tracks.len(), 2);
    assert_eq!(app.albums[2].about.as_deref(), Some("1979"));
    assert_eq!(app.nav.track_filtered, vec![0, 1]);
    assert_eq!(app.nav.track_state.selected, Some(0));
}

#[test]
fn enter_on_a_track_plays_the_album_from_it() {
    let mut app = loaded_app();
    app.update(Message::Enter);
    app.update(Message::Enter);
    app.update(Message::MoveDown);
    let e = app.update(Message::Enter);
    assert_eq!(e, vec![Effect::StartPlayback]);
    assert_eq!(app.queue.items.len(), 2);
    assert_eq!(app.queue.current, Some(1));
    let plan = app.begin_playback(false).unwrap();
    assert_eq!(plan.start, PlaybackStart::Stream);
    assert_eq!(plan.stream_url.as_deref(), Some("s2"));
    let cover = plan.cover.unwrap();
    assert_eq!((cover.artist_name.as_str(), cover.album_title.as_str()), ("abba", "Arrival"));
    assert_eq!(app.status_msg, "Buffering: abba - Money...");
    let plan = app.begin_playback(true).unwrap();
    assert_eq!(plan.start, PlaybackStart::Local);
    assert!(plan.stream_url.is_none());
    assert!(plan.cover.is_some());
    assert_eq!(app.status_msg, "Playing (local): abba - Money");
    let e = app.update(Message::NextTrack);
    assert_eq!(e, vec![Effect::PlaybackEnded]);
    assert_eq!(app.status_msg, "End of queue");
    let e = app.update(Message::PrevTrack);
    assert_eq!(e, vec![Effect::StartPlayback]);
    assert_eq!(app.queue.current, Some(0));
    assert_eq!(app.nav.track_state.selected, Some(0));
    let e = app.update(Message::TrackFinished);
    assert_eq!(e, vec![Effect::StartPlayback]);
    assert_eq!(app.queue.current, Some(1));
}

#[test]
fn search_filters_the_focused_column() {
    let mut app = loaded_app();
    app.update(Message::StartFilter);
    assert!(app.nav.filter_mode);
    app.update(Message::FilterChar('B'));
    assert_eq!(app.nav.filter_text, "B");
    assert_eq!(app.nav.artist_filtered, vec![0, 1]);
    app.update(Message::FilterChar('e'));
    assert_eq!(app.nav.artist_filtered, vec![1]);
    assert_eq!(app.nav.artist_state.selected, Some(0));
    assert_eq!(app.nav.selected_album_idx, Some(3));
    app.update(Message::FilterBackspace);
    assert_eq!(app.nav.artist_filtered, vec![0, 1]);
    app.update(Message::ConfirmFilter);
    assert!(!app.nav.filter_mode);
    assert_eq!(app.nav.filter_text, "B");
    app.update(Message::CancelFilter);
    assert_eq!(app.nav.filter_text, "");
    assert_eq!(app.nav.artist_filtered, vec![0, 1, 2]);
}

#[test]
fn clicks_and_wheel() {
    let mut app = loaded_app();
    app.update(Message::SelectAt(Column::Albums, 1));
    assert_eq!(app.nav.focus, Column::Albums);
    assert_eq!(app.nav.selected_album_idx, Some(2));
    app.update(Message::SelectAt(Column::Albums, 9));
    assert_eq!(app.nav.selected_album_idx, Some(2));
    app.update(Message::ScrollColumn(Column::Artists, 1));
    assert_eq!(app.nav.artist_state.offset, 0);
    let e = app.update(Message::FocusColumn(Column::Tracks));
    assert_eq!(e, vec![Effect::LoadAlbumDetails(2)]);
    assert_eq!(app.nav.focus, Column::Tracks);
}

#[test]
fn pages_move_by_the_pane_height() {
    let mut app = App::new(LibraryIndex::new());
    let many: Vec<Album> = (0..40).map(|i| album(i, &format!("artist {:02}", i), "t", vec![])).collect();
    app.collection_loaded(many);
    app.panes.artists = Area { x: 0, y: 0, width: 20, height: 12 };
    app.update(Message::PageDown);
    assert_eq!(app.nav.artist_state.selected, Some(10));
    assert_eq!(app.nav.artist_state.offset, 1);
    app.update(Message::HalfPageDown);
    assert_eq!(app.nav.artist_state.selected, Some(15));
    app.update(Message::PageUp);
    assert_eq!(app.nav.artist_state.selected, Some(5));
    assert_eq!(app.nav.artist_state.offset, 5);
    app.update(Message::HalfPageUp);
    assert_eq!(app.nav.artist_state.selected, Some(0));
    assert_eq!(app.nav.artist_state.offset, 0);
}

#[test]
fn commands_become_effects() {
    let mut app = loaded_app();
    assert_eq!(app.update(Message::TogglePause), vec![Effect::TogglePause]);
    assert_eq!(app.update(Message::SeekForward), vec![Effect::Seek(10)]);
    assert_eq!(app.update(Message::SeekBackward), vec![Effect::Seek(-10)]);
    assert_eq!(app.update(Message::Download), vec![Effect::Download(Column::Artists)]);
    assert_eq!(app.update(Message::DownloadAll), vec![Effect::DownloadAll]);
    assert_eq!(app.update(Message::Refresh), vec![Effect::Refresh]);
    assert_eq!(app.update(Message::Yank), vec![Effect::Yank]);
    assert_eq!(app.update(Message::Quit), vec![Effect::PersistState]);
    assert!(app.should_quit);
    app.update(Message::ToggleSettings);
    assert!(app.show_settings);
    app.update(Message::ScrollSettings(-1));
    assert_eq!(app.settings_scroll, 0);
    app.update(Message::ScrollSettings(3));
    assert_eq!(app.settings_scroll, 3);
    app.update(Message::ScrollMetaDown);
    app.update(Message::ScrollMetaDown);
    app.update(Message::ScrollMetaUp);
    assert_eq!(app.meta_scroll, 1);
}

#[test]
fn login_steps() {
    let mut app = App::new(LibraryIndex::new());
    assert_eq!(app.update(Message::OpenLogin), vec![Effect::OpenLogin]);
    app.login_page_opened();
    assert_eq!(app.login_step, LoginStep::WaitingForBrowser);
    assert_eq!(app.update(Message::ExtractCookie), vec![Effect::ExtractCookie]);
    assert_eq!(app.login_step, LoginStep::Extracting);
    assert_eq!(app.status_msg, "Extracting cookie from browser...");
    app.cookie_missing();
    assert_eq!(app.login_step, LoginStep::WaitingForBrowser);
    app.cookie_found();
    assert_eq!(app.screen, AppScreen::Loading);
    assert_eq!(app.status_msg, "Authenticated! Loading collection...");
}

#[test]
fn task_results_set_the_status() {
    let mut app = loaded_app();
    app.update(Message::AlbumDetailFailed("timeout".to_string()));
    assert_eq!(app.status_msg, "Failed to load album: timeout");
    app.update(Message::Mp3Failed("404".to_string()));
    assert_eq!(app.status_msg, "Stream error: 404");
    app.update(Message::PlaybackError("x".to_string()));
    assert_eq!(app.status_msg, "Playback error: x");
    app.update(Message::DownloadError { item_id: 42, msg: "disk".to_string() });
    assert_eq!(app.status_msg, "Download error (42): disk");
    app.begin_prefetch(3);
    assert_eq!(app.status_msg, "syncing album metadata (0/3)...");
    let e = app.update(Message::PrefetchResult {
        idx: 2,
        detail: AlbumDetail { tracks: vec![track(1, "t")], about: None, credits: None, release_date: None },
    });
    assert_eq!(e, vec![Effect::SaveAlbumMetadata(2), Effect::SaveLibrary]);
    assert_eq!(app.status_msg, "syncing album metadata (1/3)...");
    assert_eq!(app.update(Message::PrefetchDone), vec![Effect::SaveCollectionCache]);
    assert_eq!(app.status_msg, "");
    app.collection_ready(true);
    assert_eq!(app.status_msg, "Loaded 4 albums from cache");
    app.collection_ready(false);
    assert_eq!(app.status_msg, "Loaded 4 albums");
}

#[test]
fn download_events_update_the_library() {
    let mut lib = LibraryIndex::new();
    lib.insert(DownloadedAlbum {
        item_id: 2,
        album_title: "Arrival".to_string(),
        artist_name: "abba".to_string(),
        tracks: vec![DownloadedTrack { track_num: 1, title: "Dancing".into(), file_name: "01 - Dancing.flac".into(), downloaded: false, duration_ms: 0 }],
        status: AlbumDownloadStatus::Downloading,
    });
    let mut app = App::new(lib);
    app.update(Message::DownloadTrackDone { item_id: 2, track_num: 1 });
    assert!(app.library.is_track_downloaded(2, 1));
    let e = app.update(Message::DownloadAlbumDone { item_id: 2 });
    assert_eq!(e, vec![Effect::SaveLibrary]);
    assert!(app.library.is_downloaded(2));
    assert_eq!(app.status_msg, "Downloaded: abba - Arrival");
}

#[test]
fn refresh_and_fetch_lists() {
    let mut app = loaded_app();
    assert_eq!(app.albums_needing_fetch(), vec![2]);
    app.refresh_started();
    assert!(app.albums.is_empty());
    assert_eq!(app.screen, AppScreen::Loading);
    assert_eq!(app.status_msg, "Refreshing collection...");
}

#[test]
fn library_tracks_fill_an_album() {
    let mut lib = LibraryIndex::new();
    lib.insert(DownloadedAlbum {
        item_id: 3,
        album_title: "Voulez-Vous".to_string(),
        artist_name: "ABBA".to_string(),
        tracks: vec![DownloadedTrack { track_num: 4, title: "Kisses".into(), file_name: "04 - Kisses.flac".into(), downloaded: true, duration_ms: 1234 }],
        status: AlbumDownloadStatus::Complete,
    });
    let mut app = App::new(lib);
    app.collection_loaded(vec![album(3, "ABBA", "Voulez-Vous", vec![]), album(5, "x", "y", vec![])]);
    assert!(app.tracks_from_library(0));
    assert_eq!(app.albums[0].tracks[0].title, "Kisses");
    assert_eq!(app.albums[0].tracks[0].duration_ms, 1234);
    assert!(app.albums[0].tracks[0].stream_url.is_none());
    assert!(!app.tracks_from_library(1));
}

fn library_with_voulez_vous() -> LibraryIndex {
    let mut lib = LibraryIndex::new();
    lib.insert(DownloadedAlbum {
        item_id: 3,
        album_title: "Voulez-Vous".to_string(),
        artist_name: "ABBA".to_string(),
        tracks: vec![DownloadedTrack { track_num: 1, title: "Kisses".into(), file_name: "01 - Kisses.flac".into(), downloaded: true, duration_ms: 99 }],
        status: AlbumDownloadStatus::Complete,
    });
    lib
}

#[test]
fn opening_an_album_prefers_saved_then_library_then_page() {
    let mut app = App::new(library_with_voulez_vous());
    app.collection_loaded(vec![
        album(3, "ABBA", "Voulez-Vous", vec![]),
        album(4, "Beck", "Odelay", vec![]),
        album(5, "Beck", "Sea Change", vec![track(1, "Golden Age")]),
    ]);
    assert!(!app.open_album(2, None, true));
    assert_eq!(app.albums[2].tracks.len(), 1);
    let saved = AlbumDetail { tracks: vec![track(7, "Saved")], about: None, credits: Some("c".into()), release_date: None };
    assert!(!app.open_album(0, Some(saved), true));
    assert_eq!(app.albums[0].tracks[0].title, "Saved");
    assert_eq!(app.albums[0].credits.as_deref(), Some("c"));
    assert!(app.dirty);
    let mut fresh = App::new(library_with_voulez_vous());
    fresh.collection_loaded(vec![album(3, "ABBA", "Voulez-Vous", vec![]), album(4, "Beck", "Odelay", vec![])]);
    assert!(!fresh.open_album(0, None, true));
    assert_eq!(fresh.albums[0].tracks[0].title, "Kisses");
    assert_eq!(fresh.nav.track_filtered, vec![0]);
    assert_eq!(fresh.nav.track_state.selected, Some(0));
    assert!(!fresh.open_album(1, None, false));
    assert!(!fresh.loading_tracks);
    assert!(fresh.open_album(1, None, true));
    assert!(fresh.loading_tracks);
    assert!(!fresh.open_album(1, None, true));
}

#[test]
fn hydration_fills_empty_albums_only() {
    let mut app = App::new(library_with_voulez_vous());
    app.collection_loaded(vec![
        album(3, "ABBA", "Voulez-Vous", vec![]),
        album(4, "Beck", "Odelay", vec![]),
        album(5, "Beck", "Sea Change", vec![track(1, "Golden Age")]),
        album(6, "Beck", "Guero", vec![]),
    ]);
    let saved = AlbumDetail { tracks: vec![track(2, "Loser")], about: Some("a".into()), credits: None, release_date: None };
    let other = AlbumDetail { tracks: vec![track(9, "Ignored")], about: None, credits: None, release_date: None };
    app.hydrate_all(vec![None, Some(saved), Some(other), None]);
    assert_eq!(app.albums[0].tracks[0].title, "Kisses");
    assert_eq!(app.albums[1].tracks[0].title, "Loser");
    assert_eq!(app.albums[1].about.as_deref(), Some("a"));
    assert_eq!(app.albums[2].tracks[0].title, "Golden Age");
    assert!(app.albums[3].tracks.is_empty());
}

#[test]
fn covers_are_fetched_when_missing() {
    let mut app = App::new(LibraryIndex::new());
    let mut with_art = album(1, "A", "a", vec![]);
    with_art.art_url = Some("https://art/1_16.jpg".into());
    let mut present = album(2, "A", "b", vec![]);
    present.art_url = Some("https://art/2_16.jpg".into());
    app.collection_loaded(vec![with_art, present, album(3, "A", "c", vec![])]);
    assert_eq!(app.albums_needing_cover(&[false, true, false]), vec![0]);
}

#[test]
fn selected_album_download_enters_the_library() {
    let choice = bcp::config::FormatChoice::from_config(Some("mp3-320"));
    let mut app = App::new(library_with_voulez_vous());
    app.collection_loaded(vec![album(3, "ABBA", "Voulez-Vous", vec![]), album(4, "Beck", "Odelay", vec![track(1, "Devils Haircut")])]);
    assert!(!app.begin_album_download(0, &choice));
    assert_eq!(app.status_msg, "Already downloaded");
    assert!(app.begin_album_download(1, &choice));
    assert_eq!(app.status_msg, "Downloading: Beck - Odelay");
    let entry = &app.library.albums[&4];
    assert_eq!(entry.status, AlbumDownloadStatus::Downloading);
    assert_eq!(entry.tracks[0].file_name, "01 - Devils Haircut.mp3");
    assert!(!entry.tracks[0].downloaded);
    assert_eq!(app.library.albums.len(), 2);
    app.all_downloads_started(3);
    assert_eq!(app.status_msg, "Downloading 3 albums...");
}

#[test]
fn moving_the_focus_drops_the_search() {
    let mut app = loaded_app();
    app.update(Message::StartFilter);
    app.update(Message::FilterChar('b'));
    app.update(Message::ConfirmFilter);
    assert_eq!(app.nav.filter_text, "b");
    app.update(Message::FocusRight);
    assert_eq!(app.nav.filter_text, "");
    assert_eq!(app.nav.focus, Column::Albums);
}

#[test]
fn failed_collection_load() {
    let mut app = App::new(LibraryIndex::new());
    app.start_loading();
    app.collection_failed("timeout", false);
    assert_eq!(app.screen, AppScreen::Loading);
    assert_eq!(app.status_msg, "Error: timeout");
    app.collection_failed("no login", true);
    assert_eq!(app.screen, AppScreen::Login);
    assert_eq!(app.login_step, LoginStep::Prompt);
}

#[test]
fn nothing_starts_without_a_file_or_a_stream() {
    let mut app = App::new(LibraryIndex::new());
    let silent = Track { title: "Quiet".to_string(), track_num: 1, duration_ms: 1000, stream_url: None };
    app.collection_loaded(vec![album(8, "Nobody", "Nothing", vec![silent])]);
    app.update(Message::Enter);
    app.update(Message::Enter);
    app.update(Message::Enter);
    let plan = app.begin_playback(false).unwrap();
    assert_eq!(plan.start, PlaybackStart::NoStream);
    assert!(plan.stream_url.is_none());
    assert!(plan.cover.is_none());
    assert_eq!(app.status_msg, "No stream URL for this track");
}

#[test]
fn scrolling_a_column_by_the_largest_step() {
    let mut app = loaded_app();
    app.update(Message::ScrollColumn(Column::Artists, isize::MIN));
    assert_eq!(app.nav.artist_state.offset, 0);
}
