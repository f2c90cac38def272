use bcp::config::FormatChoice;
use bcp::library::{
    album_dir, album_metadata, candidate_files, detail_from_metadata, has_cover,
    match_zip_entry_to_track, prepare_album_entry, sanitize_filename, sanitize_for_path,
    track_filename, zip_entry_target, AlbumDownloadStatus, DownloadedAlbum, DownloadedTrack,
    LibraryIndex,
};
use bcp::models::{Album, Track};

fn sample_track(n: u32, title: &str, ms: u64) -> Track {
    Track { title: title.to_string(), track_num: n, duration_ms: ms, stream_url: None }
}

fn sample_album(id: u64, tracks: Vec<Track>) -> Album {
    Album {
        item_id: id,
        album_title: "Blue/Green: Live".to_string(),
        artist_name: "The Band".to_string(),
        item_url: "https://band.example/album/x".to_string(),
        art_url: None,
        date_added: None,
        tracks,
        about: Some("about".to_string()),
        credits: None,
        release_date: None,
        sale_item_id: None,
    }
}

fn dl_album(id: u64) -> DownloadedAlbum {
    DownloadedAlbum {
        item_id: id,
        album_title: "Title".to_string(),
        artist_name: "Artist".to_string(),
        tracks: vec![
            DownloadedTrack { track_num: 1, title: "One".into(), file_name: "01 - One.flac".into(), downloaded: true, duration_ms: 1000 },
            DownloadedTrack { track_num: 2, title: "Two".into(), file_name: "02 - Two.flac".into(), downloaded: false, duration_ms: 2000 },
        ],
        status: AlbumDownloadStatus::Partial,
    }
}

#[test]
fn sanitize_replaces_reserved_characters_and_trims() {
    assert_eq!(sanitize_filename("  a/b\\c:d*e?f\"g<h>i|j  "), "a_b_c_d_e_f_g_h_i_j");
    assert_eq!(sanitize_for_path("AC/DC"), "AC_DC");
    assert_eq!(sanitize_filename(""), "");
}

#[test]
fn sanitize_is_idempotent() {
    for name in ["  x:y ", "a/b", "plain", " \t", "é/ü"] {
        let once = sanitize_filename(name);
        assert_eq!(sanitize_filename(&once), once);
        assert!(!once.contains(['/', '\\', ':', '*', '?', '"', '<', '>', '|']));
    }
}

#[test]
fn track_filename_pads_the_number() {
    assert_eq!(track_filename(3, "Intro", "flac"), "03 - Intro.flac");
    assert_eq!(track_filename(12, "What?", "mp3"), "12 - What_.mp3");
    assert_eq!(track_filename(123, "Long", "mp3"), "123 - Long.mp3");
}

#[test]
fn album_dir_and_cover_are_sanitized() {
    let (a, b) = album_dir("The Band", "Blue/Green: Live");
    assert_eq!(a, "The Band");
    assert_eq!(b, "Blue_Green_ Live");
    let c = has_cover("The Band", "Blue/Green: Live");
    assert_eq!(c.artist_dir, "The Band");
    assert_eq!(c.album_dir, "Blue_Green_ Live");
    assert_eq!(c.file_name, "cover.jpg");
}

#[test]
fn zip_entries_match_tracks_by_number() {
    let tracks = vec![(1u32, "First".to_string()), (2u32, "Second".to_string())];
    assert_eq!(
        match_zip_entry_to_track("dir/Artist - Album - 02 Second.flac", &tracks),
        Some((2, "Second".to_string()))
    );
    assert_eq!(
        match_zip_entry_to_track("01. First.flac", &tracks),
        Some((1, "First".to_string()))
    );
    assert_eq!(match_zip_entry_to_track("cover.jpg", &tracks), None);
    assert_eq!(match_zip_entry_to_track("Artist - Album - 03 Third.flac", &tracks), None);
}

#[test]
fn zip_entry_targets() {
    let tracks = vec![(1u32, "First".to_string())];
    assert_eq!(
        zip_entry_target("A - B - 01 First.flac", false, &tracks, "flac"),
        Some((1, "01 - First.flac".to_string()))
    );
    assert_eq!(zip_entry_target("A - B - 01 First.flac", true, &tracks, "flac"), None);
    assert_eq!(zip_entry_target("folder/", false, &tracks, "flac"), None);
}

#[test]
fn candidate_files_try_other_extensions() {
    let c = candidate_files("01 - One.flac");
    assert_eq!(c.len(), 7);
    assert_eq!(c[0], "01 - One.flac");
    assert_eq!(c[1], "01 - One.flac");
    assert_eq!(c[2], "01 - One.mp3");
    assert_eq!(c[6], "01 - One.ogg");
    let c = candidate_files("noext");
    assert_eq!(c[2], "noext.mp3");
}

#[test]
fn library_status_and_progress() {
    let mut lib = LibraryIndex::new();
    assert!(!lib.is_downloaded(7));
    assert_eq!(lib.album_status(7), None);
    assert_eq!(lib.progress(7), (0, 0));
    lib.insert(dl_album(7));
    assert_eq!(lib.album_status(7), Some(AlbumDownloadStatus::Partial));
    assert_eq!(lib.progress(7), (1, 2));
    assert!(lib.is_track_downloaded(7, 1));
    assert!(!lib.is_track_downloaded(7, 2));
    lib.mark_track_downloaded(7, 2);
    assert!(lib.is_track_downloaded(7, 2));
    assert_eq!(lib.progress(7), (2, 2));
    let names = lib.mark_album_complete(7);
    assert_eq!(names, Some(("Artist".to_string(), "Title".to_string())));
    assert!(lib.is_downloaded(7));
    assert_eq!(lib.mark_album_complete(8), None);
}

#[test]
fn track_path_lists_candidates_of_downloaded_tracks() {
    let mut lib = LibraryIndex::new();
    lib.insert(dl_album(7));
    let loc = lib.track_path(7, 1).unwrap();
    assert_eq!(loc.artist_dir, "Artist");
    assert_eq!(loc.album_dir, "Title");
    assert_eq!(loc.candidates[0], "01 - One.flac");
    assert!(lib.track_path(7, 2).is_none());
    assert!(lib.track_path(7, 9).is_none());
    assert!(lib.track_path(8, 1).is_none());
}

#[test]
fn sync_durations_takes_listed_durations() {
    let mut lib = LibraryIndex::new();
    lib.insert(dl_album(7));
    lib.sync_durations(7, &vec![sample_track(2, "Two", 5555), sample_track(3, "Three", 1)]);
    let a = lib.albums.get(&7).unwrap();
    assert_eq!(a.tracks[0].duration_ms, 1000);
    assert_eq!(a.tracks[1].duration_ms, 5555);
}

#[test]
fn prepare_entry_uses_the_chosen_format() {
    let al = sample_album(5, vec![sample_track(1, "A:B", 100), sample_track(2, "C", 200)]);
    let e = prepare_album_entry(&al, &FormatChoice { index: 1 });
    assert_eq!(e.item_id, 5);
    assert_eq!(e.status, AlbumDownloadStatus::Downloading);
    assert_eq!(e.tracks[0].file_name, "01 - A_B.mp3");
    assert_eq!(e.tracks[1].duration_ms, 200);
    assert!(!e.tracks[0].downloaded);
    let e = prepare_album_entry(&al, &FormatChoice { index: 0 });
    assert_eq!(e.tracks[1].file_name, "02 - C.flac");
}

#[test]
fn metadata_round_trip() {
    let mut al = sample_album(5, vec![sample_track(1, "A", 100), sample_track(2, "B", 200)]);
    al.tracks[1].stream_url = Some("u".to_string());
    let meta = album_metadata(&al);
    assert_eq!(meta.item_id, 5);
    let back = detail_from_metadata(meta);
    assert_eq!(back.tracks.len(), 2);
    assert_eq!(back.tracks[1].title, "B");
    assert_eq!(back.tracks[1].duration_ms, 200);
    assert_eq!(back.tracks[1].stream_url.as_deref(), Some("u"));
    assert_eq!(back.about.as_deref(), Some("about"));
}

#[test]
fn cover_address_asks_for_the_large_image() {
    assert_eq!(
        bcp::library::cover_art_url("https://f4.bcbits.com/img/a123_16.jpg"),
        "https://f4.bcbits.com/img/a123_5.jpg"
    );
    assert_eq!(bcp::library::cover_art_url("https://x/a_1.jpg"), "https://x/a_1.jpg");
}
