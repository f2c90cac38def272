use bcp::library::{AlbumDownloadStatus, DownloadedAlbum, DownloadedTrack, LibraryIndex};
use bcp::models::{Album, Track};
use bcp::queue::QueueItem;
use bcp::views::{
    column_title, download_state, in_range_exec, no_tracks_message, queue_rows, track_column_title,
    track_rows, ArtistColumn, SettingsView,
};

fn view_track(n: u32, title: &str, ms: u64) -> Track {
    Track { title: title.to_string(), track_num: n, duration_ms: ms, stream_url: None }
}

fn view_album() -> Album {
    Album {
        item_id: 9,
        album_title: "Odelay".to_string(),
        artist_name: "Beck".to_string(),
        item_url: String::new(),
        art_url: None,
        date_added: None,
        tracks: vec![
            view_track(1, "Devils Haircut", 254_000),
            view_track(2, "Hotwax", 229_500),
            view_track(12, "Ramshackle", 288_999),
        ],
        about: None,
        credits: None,
        release_date: None,
        sale_item_id: None,
    }
}

fn library_with(item_id: u64, marks: &[bool], status: AlbumDownloadStatus) -> LibraryIndex {
    let mut lib = LibraryIndex::new();
    let tracks = marks
        .iter()
        .enumerate()
        .map(|(i, d)| DownloadedTrack {
            track_num: i as u32 + 1,
            title: format!("t{}", i),
            file_name: format!("{:02} - t{}.mp3", i + 1, i),
            downloaded: *d,
            duration_ms: 0,
        })
        .collect();
    lib.insert(DownloadedAlbum {
        item_id,
        album_title: "Odelay".to_string(),
        artist_name: "Beck".to_string(),
        tracks,
        status,
    });
    lib
}

#[test]
fn listed_positions_stay_inside_the_list() {
    assert_eq!(in_range_exec(&[0, 5, 2, 3], 3), vec![0, 2]);
    assert_eq!(in_range_exec(&[], 3), Vec::<usize>::new());
}

#[test]
fn column_titles() {
    assert_eq!(column_title("Albums", 12), " Albums (12) ");
    let artists = vec!["ABBA".to_string(), "Beck".to_string()];
    let col = ArtistColumn { artists: &artists, filtered_indices: &[1, 7], focused: true };
    assert_eq!(col.title(), " Artists (2) ");
    assert_eq!(col.names(), vec!["Beck".to_string()]);
    assert_eq!(track_column_title(&view_album()), " Beck - Odelay ");
}

#[test]
fn track_rows_show_marks_numbers_and_durations() {
    let album = view_album();
    let lib = library_with(9, &[true, false], AlbumDownloadStatus::Partial);
    let rows = track_rows(&album, &[0, 1, 2, 3], &lib, Some(9), Some(2));
    assert_eq!(rows.len(), 3);
    assert!(rows[0].downloaded);
    assert!(!rows[1].downloaded);
    assert!(!rows[2].downloaded);
    assert_eq!(rows[0].number, " 1. ");
    assert_eq!(rows[2].number, "12. ");
    assert_eq!(rows[0].duration, "  04:14");
    assert_eq!(rows[1].duration, "  03:49");
    assert_eq!(rows[1].title, "Hotwax");
    assert!(!rows[0].playing);
    assert!(rows[1].playing);
}

#[test]
fn no_tracks_messages() {
    assert_eq!(no_tracks_message(true), "  Loading...");
    assert_eq!(no_tracks_message(false), "  Press Enter to load tracks");
}

#[test]
fn queue_rows_mark_the_current_entry() {
    let items = vec![
        QueueItem {
            track: view_track(1, "One", 61_000),
            item_id: 1,
            album_title: "Alb".to_string(),
            artist_name: "Art".to_string(),
            art_url: None,
            about: None,
            credits: None,
            release_date: None,
        },
        QueueItem {
            track: view_track(2, "Two", 3_600_000),
            item_id: 1,
            album_title: "Alb".to_string(),
            artist_name: "Art".to_string(),
            art_url: None,
            about: None,
            credits: None,
            release_date: None,
        },
    ];
    let rows = queue_rows(&items, Some(1));
    assert_eq!(rows.len(), 2);
    assert!(!rows[0].current);
    assert!(rows[1].current);
    assert_eq!(rows[0].duration, "  01:01");
    assert_eq!(rows[1].duration, "  60:00");
    assert_eq!(rows[0].source, "  Art \u{2014} Alb");
}

#[test]
fn download_states() {
    let lib = library_with(4, &[true, true, false], AlbumDownloadStatus::Downloading);
    assert_eq!(download_state(&lib, 4), "2/3  downloading...");
    let lib = library_with(4, &[true, false, false], AlbumDownloadStatus::Partial);
    assert_eq!(download_state(&lib, 4), "1/3");
    let lib = library_with(4, &[true, true], AlbumDownloadStatus::Complete);
    assert_eq!(download_state(&lib, 4), "2/2");
    assert_eq!(download_state(&lib, 5), "");
}

#[test]
fn keybinding_grid_fills_columns_first() {
    let g = SettingsView::keybinding_grid(5, 60);
    assert_eq!(g, vec![vec![0, 3], vec![1, 4], vec![2]]);
    let g = SettingsView::keybinding_grid(3, 10);
    assert_eq!(g, vec![vec![0], vec![1], vec![2]]);
    assert!(SettingsView::keybinding_grid(0, 80).is_empty());
}

#[test]
fn album_rows_follow_the_artist_list() {
    let mut first = view_album();
    first.item_id = 4;
    first.album_title = "Mellow Gold".to_string();
    let albums = vec![view_album(), first];
    let lib = library_with(4, &[false], AlbumDownloadStatus::Downloading);
    let rows = bcp::views::album_rows(&albums, &[1, 0, 9], &[1, 0, 2, 5], &lib);
    assert_eq!(rows.len(), 2);
    assert_eq!(rows[0].title, "Odelay");
    assert!(!rows[0].in_library);
    assert_eq!(rows[1].title, "Mellow Gold");
    assert!(rows[1].in_library);
}
