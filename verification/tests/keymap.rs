use bcp::app::{App, Message};
use bcp::keymap::{Key, KeyCode, Mouse, MouseKind};
use bcp::layout::Area;
use bcp::library::LibraryIndex;
use bcp::models::Album;
use bcp::nav::Column;

fn key(c: KeyCode) -> Key {
    Key { code: c, ctrl: false }
}

fn ctrl(c: char) -> Key {
    Key { code: KeyCode::Char(c), ctrl: true }
}

fn plain_album(id: u64, artist: &str) -> Album {
    Album {
        item_id: id,
        album_title: format!("Album {}", id),
        artist_name: artist.to_string(),
        item_url: String::new(),
        art_url: None,
        date_added: None,
        tracks: vec![],
        about: None,
        credits: None,
        release_date: None,
        sale_item_id: None,
    }
}

fn main_screen_app() -> App {
    let mut app = App::new(LibraryIndex::new());
    app.collection_loaded(vec![plain_album(1, "A"), plain_album(2, "B"), plain_album(3, "C")]);
    app.panes.artists = Area { x: 0, y: 0, width: 20, height: 10 };
    app.panes.albums = Area { x: 20, y: 0, width: 20, height: 10 };
    app.panes.tracks = Area { x: 40, y: 0, width: 20, height: 10 };
    app.panes.now_playing = Area { x: 0, y: 10, width: 60, height: 5 };
    app
}

#[test]
fn ctrl_c_quits_in_every_screen() {
    let login = App::new(LibraryIndex::new());
    assert!(matches!(login.map_key(ctrl('c')), Some(Message::Quit)));
    let mut app = main_screen_app();
    assert!(matches!(app.map_key(ctrl('c')), Some(Message::Quit)));
    app.show_settings = true;
    assert!(matches!(app.map_key(ctrl('c')), Some(Message::Quit)));
    app.show_settings = false;
    app.nav.filter_mode = true;
    assert!(matches!(app.map_key(ctrl('c')), Some(Message::Quit)));
}

#[test]
fn login_keys() {
    let app = App::new(LibraryIndex::new());
    assert!(matches!(app.map_key(key(KeyCode::Enter)), Some(Message::OpenLogin)));
    assert!(matches!(app.map_key(key(KeyCode::Char('q'))), Some(Message::Quit)));
    assert!(app.map_key(key(KeyCode::Char('j'))).is_none());
}

#[test]
fn main_screen_keys() {
    let app = main_screen_app();
    assert!(matches!(app.map_key(key(KeyCode::Char('j'))), Some(Message::MoveDown)));
    assert!(matches!(app.map_key(key(KeyCode::Up)), Some(Message::MoveUp)));
    assert!(matches!(app.map_key(ctrl('f')), Some(Message::PageDown)));
    assert!(matches!(app.map_key(ctrl('d')), Some(Message::HalfPageDown)));
    assert!(matches!(app.map_key(key(KeyCode::Char('d'))), Some(Message::Download)));
    assert!(matches!(app.map_key(key(KeyCode::Char('D'))), Some(Message::DownloadAll)));
    assert!(matches!(app.map_key(key(KeyCode::Char(' '))), Some(Message::TogglePause)));
    assert!(matches!(app.map_key(key(KeyCode::Char('/'))), Some(Message::StartFilter)));
    assert!(matches!(app.map_key(key(KeyCode::Esc)), Some(Message::FocusLeft)));
    assert!(app.map_key(key(KeyCode::Char('x'))).is_none());
}

#[test]
fn typing_goes_into_the_search() {
    let mut app = main_screen_app();
    app.nav.filter_mode = true;
    assert!(matches!(app.map_key(key(KeyCode::Char('q'))), Some(Message::FilterChar('q'))));
    assert!(matches!(app.map_key(key(KeyCode::Backspace)), Some(Message::FilterBackspace)));
    assert!(matches!(app.map_key(key(KeyCode::Enter)), Some(Message::ConfirmFilter)));
    assert!(matches!(app.map_key(key(KeyCode::Down)), Some(Message::MoveDown)));
    assert!(matches!(app.map_key(key(KeyCode::Esc)), Some(Message::CancelFilter)));
}

#[test]
fn escape_clears_a_kept_search() {
    let mut app = main_screen_app();
    app.nav.filter_text = "b".to_string();
    assert!(matches!(app.map_key(key(KeyCode::Esc)), Some(Message::CancelFilter)));
}

#[test]
fn info_view_keys_and_wheel() {
    let mut app = main_screen_app();
    app.show_settings = true;
    assert!(matches!(app.map_key(key(KeyCode::Char('?'))), Some(Message::ToggleSettings)));
    assert!(matches!(app.map_key(key(KeyCode::Char('j'))), Some(Message::ScrollSettings(1))));
    assert!(matches!(app.map_key(key(KeyCode::Up)), Some(Message::ScrollSettings(-1))));
    let m = app.map_mouse(Mouse { kind: MouseKind::ScrollUp, column: 5, row: 5 });
    assert_eq!(m.len(), 1);
    assert!(matches!(m[0], Message::ScrollSettings(-1)));
}

#[test]
fn mouse_clicks_select_rows() {
    let app = main_screen_app();
    let m = app.map_mouse(Mouse { kind: MouseKind::LeftDown, column: 5, row: 2 });
    assert_eq!(m.len(), 1);
    assert!(matches!(m[0], Message::SelectAt(Column::Artists, 1)));
    let m = app.map_mouse(Mouse { kind: MouseKind::LeftDown, column: 5, row: 8 });
    assert!(matches!(m[0], Message::FocusColumn(Column::Artists)));
    let m = app.map_mouse(Mouse { kind: MouseKind::LeftDown, column: 5, row: 0 });
    assert!(matches!(m[0], Message::FocusColumn(Column::Artists)));
    let m = app.map_mouse(Mouse { kind: MouseKind::ScrollDown, column: 45, row: 3 });
    assert_eq!(m.len(), 2);
    assert!(matches!(m[0], Message::FocusColumn(Column::Tracks)));
    assert!(matches!(m[1], Message::ScrollColumn(Column::Tracks, 1)));
    let m = app.map_mouse(Mouse { kind: MouseKind::ScrollUp, column: 5, row: 12 });
    assert_eq!(m.len(), 1);
    assert!(matches!(m[0], Message::ScrollMetaUp));
    assert!(app.map_mouse(Mouse { kind: MouseKind::ScrollUp, column: 70, row: 30 }).is_empty());
}

#[test]
fn mouse_is_ignored_outside_the_main_screen() {
    let app = App::new(LibraryIndex::new());
    assert!(app.map_mouse(Mouse { kind: MouseKind::LeftDown, column: 1, row: 1 }).is_empty());
}

#[test]
fn keybinding_list() {
    let all = Message::all_keybindings();
    assert_eq!(all.len(), 26);
    assert_eq!(all[0], ("h / \u{2190}", "left"));
    assert_eq!(all[25], ("q", "quit"));
    assert_eq!(all[12], ("/", "search"));
    assert_eq!(Message::Yank.binding(), Some(("y", "yank link")));
    assert_eq!(Message::TrackFinished.binding(), None);
}
