//! What keys and mouse events mean: the message each one sends in each
//! screen and mode, and the key bindings listed in the info view.
use vstd::prelude::*;
use crate::app::{App, AppView, Message, Panes};
use crate::layout::{Area, contains_spec, rect_contains, row_at, row_at_spec};
use crate::nav::{Column, NavView};
use crate::screens::{AppScreen, LoginStep};

verus! {

/// A key, as far as the player tells keys apart.
#[derive(PartialEq, Eq, Structural, Clone, Copy, Debug)]
pub enum KeyCode {
    Char(char),
    Enter,
    Esc,
    Backspace,
    Left,
    Right,
    Up,
    Down,
    PageUp,
    PageDown,
    Other,
}

/// A key press, and whether Control was held.
#[derive(PartialEq, Eq, Structural, Clone, Copy, Debug)]
pub struct Key {
    pub code: KeyCode,
    pub ctrl: bool,
}

/// A mouse action, as far as the player tells them apart.
#[derive(PartialEq, Eq, Structural, Clone, Copy, Debug)]
pub enum MouseKind {
    LeftDown,
    ScrollDown,
    ScrollUp,
    Other,
}

/// A mouse event at a cell.
#[derive(PartialEq, Eq, Structural, Clone, Copy, Debug)]
pub struct Mouse {
    pub kind: MouseKind,
    pub column: u16,
    pub row: u16,
}

/// Keys of the login screen.
pub open spec fn login_key(step: LoginStep, key: Key) -> Option<Message> {
    match step {
        LoginStep::Prompt => match key.code {
            KeyCode::Enter => Some(Message::OpenLogin),
            KeyCode::Char('q') => Some(Message::Quit),
            _ => None,
        },
        LoginStep::WaitingForBrowser => match key.code {
            KeyCode::Enter => Some(Message::ExtractCookie),
            KeyCode::Char('q') => Some(Message::Quit),
            _ => None,
        },
        LoginStep::Extracting => None,
    }
}

/// Keys of the info view.
pub open spec fn settings_key(key: Key) -> Option<Message> {
    match key.code {
        KeyCode::Esc | KeyCode::Char('?') => Some(Message::ToggleSettings),
        KeyCode::Char('q') => Some(Message::Quit),
        KeyCode::Char('j') | KeyCode::Down => Some(Message::ScrollSettings(1isize)),
        KeyCode::Char('k') | KeyCode::Up => Some(Message::ScrollSettings(-1isize)),
        _ => None,
    }
}

/// Keys while typing a search.
pub open spec fn filter_key(key: Key) -> Option<Message> {
    match key.code {
        KeyCode::Esc => Some(Message::CancelFilter),
        KeyCode::Enter => Some(Message::ConfirmFilter),
        KeyCode::Backspace => Some(Message::FilterBackspace),
        KeyCode::Char(c) => Some(Message::FilterChar(c)),
        _ => None,
    }
}

/// Keys of the main screen.
pub open spec fn main_key(filter_empty: bool, key: Key) -> Option<Message> {
    match key.code {
        KeyCode::Char('q') => Some(Message::Quit),
        KeyCode::Esc => if !filter_empty { Some(Message::CancelFilter) } else { Some(Message::FocusLeft) },
        KeyCode::Char('f') if key.ctrl => Some(Message::PageDown),
        KeyCode::Char('b') if key.ctrl => Some(Message::PageUp),
        KeyCode::Char('d') if key.ctrl => Some(Message::HalfPageDown),
        KeyCode::Char('u') if key.ctrl => Some(Message::HalfPageUp),
        KeyCode::Char('h') | KeyCode::Left => Some(Message::FocusLeft),
        KeyCode::Char('l') | KeyCode::Right => Some(Message::FocusRight),
        KeyCode::Char('?') => Some(Message::ToggleSettings),
        KeyCode::Char('d') => Some(Message::Download),
        KeyCode::Char('D') => Some(Message::DownloadAll),
        KeyCode::Char('j') | KeyCode::Down => Some(Message::MoveDown),
        KeyCode::Char('k') | KeyCode::Up => Some(Message::MoveUp),
        KeyCode::Char('g') => Some(Message::MoveToTop),
        KeyCode::Char('G') => Some(Message::MoveToBottom),
        KeyCode::PageDown => Some(Message::PageDown),
        KeyCode::PageUp => Some(Message::PageUp),
        KeyCode::Enter => Some(Message::Enter),
        KeyCode::Char(' ') => Some(Message::TogglePause),
        KeyCode::Char('n') => Some(Message::NextTrack),
        KeyCode::Char('p') => Some(Message::PrevTrack),
        KeyCode::Char('[') => Some(Message::SeekBackward),
        KeyCode::Char(']') => Some(Message::SeekForward),
        KeyCode::Char('J') => Some(Message::ScrollMetaDown),
        KeyCode::Char('K') => Some(Message::ScrollMetaUp),
        KeyCode::Char('r') => Some(Message::Refresh),
        KeyCode::Char('y') => Some(Message::Yank),
        KeyCode::Char('/') => Some(Message::StartFilter),
        _ => None,
    }
}

/// The message a key sends: Control-C quits everywhere; the login screen,
/// the info view, a search being typed and the main screen each read keys
/// their own way; the loading screen ignores them. While a search is typed,
/// Up and Down move as in the main screen and Enter confirms the search.
pub open spec fn key_message(v: AppView, key: Key) -> Option<Message> {
    if key.code == KeyCode::Char('c') && key.ctrl {
        Some(Message::Quit)
    } else {
        match v.screen {
            AppScreen::Login => login_key(v.login_step, key),
            AppScreen::Loading => None,
            AppScreen::Main => if v.show_settings {
                settings_key(key)
            } else if v.nav.filter_mode {
                if key.code == KeyCode::Enter {
                    Some(Message::ConfirmFilter)
                } else if key.code == KeyCode::Up || key.code == KeyCode::Down {
                    main_key(v.nav.filter.len() == 0, key)
                } else {
                    filter_key(key)
                }
            } else {
                main_key(v.nav.filter.len() == 0, key)
            },
        }
    }
}

/// The column whose pane holds a cell, looking at the artist, album and
/// track panes in that order.
pub open spec fn column_at(p: Panes, x: u16, y: u16) -> Option<Column> {
    if contains_spec(p.artists, x, y) {
        Some(Column::Artists)
    } else if contains_spec(p.albums, x, y) {
        Some(Column::Albums)
    } else if contains_spec(p.tracks, x, y) {
        Some(Column::Tracks)
    } else {
        None
    }
}

/// The pane of a column.
pub open spec fn pane(p: Panes, c: Column) -> Area {
    match c {
        Column::Artists => p.artists,
        Column::Albums => p.albums,
        Column::Tracks => p.tracks,
    }
}

/// The scroll offset of a column's list.
pub open spec fn offset_of(n: NavView, c: Column) -> usize {
    match c {
        Column::Artists => n.artist_state.offset,
        Column::Albums => n.album_state.offset,
        Column::Tracks => n.track_state.offset,
    }
}

/// The rows of a column's list.
pub open spec fn rows_of(n: NavView, c: Column) -> nat {
    match c {
        Column::Artists => n.artist_filtered.len(),
        Column::Albums => n.album_filtered.len(),
        Column::Tracks => n.track_filtered.len(),
    }
}

/// The messages a mouse event sends. Only the main screen takes the mouse,
/// not while a search is typed; the info view scrolls with the wheel. A left
/// click on a listed row selects it, elsewhere in a column's pane focuses
/// the column; the wheel over a column focuses and scrolls it, over the
/// now-playing pane it scrolls the album's texts.
pub open spec fn mouse_messages(v: AppView, ev: Mouse) -> Seq<Message> {
    if v.screen != AppScreen::Main || (!v.show_settings && v.nav.filter_mode) {
        seq![]
    } else if v.show_settings {
        match ev.kind {
            MouseKind::ScrollDown => seq![Message::ScrollSettings(1isize)],
            MouseKind::ScrollUp => seq![Message::ScrollSettings(-1isize)],
            _ => seq![],
        }
    } else {
        let hit = column_at(v.panes, ev.column, ev.row);
        let np = contains_spec(v.panes.now_playing, ev.column, ev.row);
        match ev.kind {
            MouseKind::LeftDown => match hit {
                Some(col) => match row_at_spec(pane(v.panes, col), ev.column, ev.row, offset_of(v.nav, col), rows_of(v.nav, col)) {
                    Some(i) => seq![Message::SelectAt(col, i)],
                    None => seq![Message::FocusColumn(col)],
                },
                None => seq![],
            },
            MouseKind::ScrollDown => match hit {
                Some(col) => seq![Message::FocusColumn(col), Message::ScrollColumn(col, 1isize)],
                None => if np { seq![Message::ScrollMetaDown] } else { seq![] },
            },
            MouseKind::ScrollUp => match hit {
                Some(col) => seq![Message::FocusColumn(col), Message::ScrollColumn(col, -1isize)],
                None => if np { seq![Message::ScrollMetaUp] } else { seq![] },
            },
            MouseKind::Other => seq![],
        }
    }
}

/// The key binding of a message, as the info view lists it: the keys and
/// what they do. Messages that no key sends directly have none.
pub open spec fn binding_spec(m: Message) -> Option<(Seq<char>, Seq<char>)> {
    match m {
        Message::Quit => Some(("q"@, "quit"@)),
        Message::FocusLeft => Some(("h / \u{2190}"@, "left"@)),
        Message::FocusRight => Some(("l / \u{2192}"@, "right"@)),
        Message::MoveUp => Some(("k / \u{2191}"@, "up"@)),
        Message::MoveDown => Some(("j / \u{2193}"@, "down"@)),
        Message::MoveToTop => Some(("g"@, "top"@)),
        Message::MoveToBottom => Some(("G"@, "bottom"@)),
        Message::PageDown => Some(("PgDn / ^F"@, "page down"@)),
        Message::PageUp => Some(("PgUp / ^B"@, "page up"@)),
        Message::HalfPageDown => Some(("^D"@, "half page down"@)),
        Message::HalfPageUp => Some(("^U"@, "half page up"@)),
        Message::Enter => Some(("Enter"@, "open/play"@)),
        Message::TogglePause => Some(("Space"@, "pause"@)),
        Message::NextTrack => Some(("n"@, "next track"@)),
        Message::PrevTrack => Some(("p"@, "prev track"@)),
        Message::SeekBackward => Some(("["@, "seek -10s"@)),
        Message::SeekForward => Some(("]"@, "seek +10s"@)),
        Message::ScrollMetaDown => Some(("J"@, "scroll meta down"@)),
        Message::ScrollMetaUp => Some(("K"@, "scroll meta up"@)),
        Message::StartFilter => Some(("/"@, "search"@)),
        Message::CancelFilter => Some(("Esc"@, "back/clear"@)),
        Message::Download => Some(("d"@, "download"@)),
        Message::DownloadAll => Some(("D"@, "download all"@)),
        Message::ToggleSettings => Some(("?"@, "info"@)),
        Message::Refresh => Some(("r"@, "refresh"@)),
        Message::Yank => Some(("y"@, "yank link"@)),
        _ => None,
    }
}

impl Message {
    /// The key binding of a message, if a key sends it.
    pub fn binding(&self) -> (r: Option<(&'static str, &'static str)>)
        ensures
            match r {
                Some((k, d)) => binding_spec(*self) == Some((k@, d@)),
                None => binding_spec(*self) is None,
            },
    {
        match self {
            Message::Quit => Some(("q", "quit")),
            Message::FocusLeft => Some(("h / \u{2190}", "left")),
            Message::FocusRight => Some(("l / \u{2192}", "right")),
            Message::MoveUp => Some(("k / \u{2191}", "up")),
            Message::MoveDown => Some(("j / \u{2193}", "down")),
            Message::MoveToTop => Some(("g", "top")),
            Message::MoveToBottom => Some(("G", "bottom")),
            Message::PageDown => Some(("PgDn / ^F", "page down")),
            Message::PageUp => Some(("PgUp / ^B", "page up")),
            Message::HalfPageDown => Some(("^D", "half page down")),
            Message::HalfPageUp => Some(("^U", "half page up")),
            Message::Enter => Some(("Enter", "open/play")),
            Message::TogglePause => Some(("Space", "pause")),
            Message::NextTrack => Some(("n", "next track")),
            Message::PrevTrack => Some(("p", "prev track")),
            Message::SeekBackward => Some(("[", "seek -10s")),
            Message::SeekForward => Some(("]", "seek +10s")),
            Message::ScrollMetaDown => Some(("J", "scroll meta down")),
            Message::ScrollMetaUp => Some(("K", "scroll meta up")),
            Message::StartFilter => Some(("/", "search")),
            Message::CancelFilter => Some(("Esc", "back/clear")),
            Message::Download => Some(("d", "download")),
            Message::DownloadAll => Some(("D", "download all")),
            Message::ToggleSettings => Some(("?", "info")),
            Message::Refresh => Some(("r", "refresh")),
            Message::Yank => Some(("y", "yank link")),
            _ => None,
        }
    }
}

/// The messages whose bindings the info view lists, in display order.
pub open spec fn listed_messages() -> Seq<Message> {
    seq![
        Message::FocusLeft,
        Message::FocusRight,
        Message::MoveUp,
        Message::MoveDown,
        Message::MoveToTop,
        Message::MoveToBottom,
        Message::PageDown,
        Message::PageUp,
        Message::HalfPageDown,
        Message::HalfPageUp,
        Message::Enter,
        Message::CancelFilter,
        Message::StartFilter,
        Message::TogglePause,
        Message::NextTrack,
        Message::PrevTrack,
        Message::SeekBackward,
        Message::SeekForward,
        Message::ScrollMetaDown,
        Message::ScrollMetaUp,
        Message::Download,
        Message::DownloadAll,
        Message::Refresh,
        Message::Yank,
        Message::ToggleSettings,
        Message::Quit,
    ]
}

impl Message {
    /// All key bindings, in display order: those of `listed_messages`.
    pub fn all_keybindings() -> (r: Vec<(&'static str, &'static str)>)
        ensures
            r@.len() == listed_messages().len(),
            forall|i: int| 0 <= i < r@.len() ==> binding_spec(#[trigger] listed_messages()[i]) == Some((r@[i].0@, r@[i].1@)),
    {
        let list = vec![
            Message::FocusLeft,
            Message::FocusRight,
            Message::MoveUp,
            Message::MoveDown,
            Message::MoveToTop,
            Message::MoveToBottom,
            Message::PageDown,
            Message::PageUp,
            Message::HalfPageDown,
            Message::HalfPageUp,
            Message::Enter,
            Message::CancelFilter,
            Message::StartFilter,
            Message::TogglePause,
            Message::NextTrack,
            Message::PrevTrack,
            Message::SeekBackward,
            Message::SeekForward,
            Message::ScrollMetaDown,
            Message::ScrollMetaUp,
            Message::Download,
            Message::DownloadAll,
            Message::Refresh,
            Message::Yank,
            Message::ToggleSettings,
            Message::Quit,
        ];
        assert(list@ =~= listed_messages());
        let mut out: Vec<(&'static str, &'static str)> = Vec::new();
        let mut i: usize = 0;
        while i < list.len()
            invariant
                i <= list@.len(),
                list@ == listed_messages(),
                out@.len() == i,
                forall|j: int| 0 <= j < i ==> binding_spec(#[trigger] listed_messages()[j]) == Some((out@[j].0@, out@[j].1@)),
            decreases list@.len() - i,
        {
            match list[i].binding() {
                Some(b) => out.push(b),
                None => {
                    assert(false);
                },
            }
            i += 1;
        }
        out
    }
}

impl App {
    /// The message a key sends.
    pub fn map_key(&self, key: Key) -> (r: Option<Message>)
        ensures
            r == key_message(self@, key),
    {
        if key.code == KeyCode::Char('c') && key.ctrl {
            return Some(Message::Quit);
        }
        match self.screen {
            AppScreen::Login => map_login_key(self.login_step, key),
            AppScreen::Loading => None,
            AppScreen::Main => if self.show_settings {
                map_settings_key(key)
            } else if self.nav.filter_mode {
                if key.code == KeyCode::Enter {
                    Some(Message::ConfirmFilter)
                } else if key.code == KeyCode::Up || key.code == KeyCode::Down {
                    map_main_key(self.nav.filter_text.as_str().is_empty(), key)
                } else {
                    map_filter_key(key)
                }
            } else {
                map_main_key(self.nav.filter_text.as_str().is_empty(), key)
            },
        }
    }

    /// The messages a mouse event sends.
    pub fn map_mouse(&self, ev: Mouse) -> (r: Vec<Message>)
        ensures
            r@ == mouse_messages(self@, ev),
    {
        let mut out: Vec<Message> = Vec::new();
        if self.screen != AppScreen::Main || (!self.show_settings && self.nav.filter_mode) {
            assert(out@ =~= mouse_messages(self@, ev));
            return out;
        }
        if self.show_settings {
            match ev.kind {
                MouseKind::ScrollDown => out.push(Message::ScrollSettings(1)),
                MouseKind::ScrollUp => out.push(Message::ScrollSettings(-1)),
                _ => {},
            }
            assert(out@ =~= mouse_messages(self@, ev));
            return out;
        }
        let x = ev.column;
        let y = ev.row;
        let hit = if rect_contains(self.panes.artists, x, y) {
            Some(Column::Artists)
        } else if rect_contains(self.panes.albums, x, y) {
            Some(Column::Albums)
        } else if rect_contains(self.panes.tracks, x, y) {
            Some(Column::Tracks)
        } else {
            None
        };
        let np = rect_contains(self.panes.now_playing, x, y);
        match ev.kind {
            MouseKind::LeftDown => match hit {
                Some(col) => {
                    let (rect, offset, len) = match col {
                        Column::Artists => (self.panes.artists, self.nav.artist_state.offset, self.nav.artist_filtered.len()),
                        Column::Albums => (self.panes.albums, self.nav.album_state.offset, self.nav.album_filtered.len()),
                        Column::Tracks => (self.panes.tracks, self.nav.track_state.offset, self.nav.track_filtered.len()),
                    };
                    match row_at(rect, x, y, offset, len) {
                        Some(i) => out.push(Message::SelectAt(col, i)),
                        None => out.push(Message::FocusColumn(col)),
                    }
                },
                None => {},
            },
            MouseKind::ScrollDown => match hit {
                Some(col) => {
                    out.push(Message::FocusColumn(col));
                    out.push(Message::ScrollColumn(col, 1));
                },
                None => if np {
                    out.push(Message::ScrollMetaDown);
                },
            },
            MouseKind::ScrollUp => match hit {
                Some(col) => {
                    out.push(Message::FocusColumn(col));
                    out.push(Message::ScrollColumn(col, -1));
                },
                None => if np {
                    out.push(Message::ScrollMetaUp);
                },
            },
            MouseKind::Other => {},
        }
        assert(out@ =~= mouse_messages(self@, ev));
        out
    }
}

/// The message a key sends on the login screen.
fn map_login_key(step: LoginStep, key: Key) -> (r: Option<Message>)
    ensures
        r == login_key(step, key),
{
    match step {
        LoginStep::Prompt => match key.code {
            KeyCode::Enter => Some(Message::OpenLogin),
            KeyCode::Char('q') => Some(Message::Quit),
            _ => None,
        },
        LoginStep::WaitingForBrowser => match key.code {
            KeyCode::Enter => Some(Message::ExtractCookie),
            KeyCode::Char('q') => Some(Message::Quit),
            _ => None,
        },
        LoginStep::Extracting => None,
    }
}

/// The message a key sends in the info view.
fn map_settings_key(key: Key) -> (r: Option<Message>)
    ensures
        r == settings_key(key),
{
    match key.code {
        KeyCode::Esc | KeyCode::Char('?') => Some(Message::ToggleSettings),
        KeyCode::Char('q') => Some(Message::Quit),
        KeyCode::Char('j') | KeyCode::Down => Some(Message::ScrollSettings(1)),
        KeyCode::Char('k') | KeyCode::Up => Some(Message::ScrollSettings(-1)),
        _ => None,
    }
}

/// The message a key sends while a search is typed.
fn map_filter_key(key: Key) -> (r: Option<Message>)
    ensures
        r == filter_key(key),
{
    match key.code {
        KeyCode::Esc => Some(Message::CancelFilter),
        KeyCode::Enter => Some(Message::ConfirmFilter),
        KeyCode::Backspace => Some(Message::FilterBackspace),
        KeyCode::Char(c) => Some(Message::FilterChar(c)),
        _ => None,
    }
}

/// The message a key sends on the main screen.
fn map_main_key(filter_empty: bool, key: Key) -> (r: Option<Message>)
    ensures
        r == main_key(filter_empty, key),
{
    match key.code {
        KeyCode::Char('q') => Some(Message::Quit),
        KeyCode::Esc => if !filter_empty { Some(Message::CancelFilter) } else { Some(Message::FocusLeft) },
        KeyCode::Char('f') if key.ctrl => Some(Message::PageDown),
        KeyCode::Char('b') if key.ctrl => Some(Message::PageUp),
        KeyCode::Char('d') if key.ctrl => Some(Message::HalfPageDown),
        KeyCode::Char('u') if key.ctrl => Some(Message::HalfPageUp),
        KeyCode::Char('h') | KeyCode::Left => Some(Message::FocusLeft),
        KeyCode::Char('l') | KeyCode::Right => Some(Message::FocusRight),
        KeyCode::Char('?') => Some(Message::ToggleSettings),
        KeyCode::Char('d') => Some(Message::Download),
        KeyCode::Char('D') => Some(Message::DownloadAll),
        KeyCode::Char('j') | KeyCode::Down => Some(Message::MoveDown),
        KeyCode::Char('k') | KeyCode::Up => Some(Message::MoveUp),
        KeyCode::Char('g') => Some(Message::MoveToTop),
        KeyCode::Char('G') => Some(Message::MoveToBottom),
        KeyCode::PageDown => Some(Message::PageDown),
        KeyCode::PageUp => Some(Message::PageUp),
        KeyCode::Enter => Some(Message::Enter),
        KeyCode::Char(' ') => Some(Message::TogglePause),
        KeyCode::Char('n') => Some(Message::NextTrack),
        KeyCode::Char('p') => Some(Message::PrevTrack),
        KeyCode::Char('[') => Some(Message::SeekBackward),
        KeyCode::Char(']') => Some(Message::SeekForward),
        KeyCode::Char('J') => Some(Message::ScrollMetaDown),
        KeyCode::Char('K') => Some(Message::ScrollMetaUp),
        KeyCode::Char('r') => Some(Message::Refresh),
        KeyCode::Char('y') => Some(Message::Yank),
        KeyCode::Char('/') => Some(Message::StartFilter),
        _ => None,
    }
}

/// Control-C quits on every screen, in every mode.
pub proof fn law_ctrl_c_quits(v: AppView)
    ensures
        key_message(v, Key { code: KeyCode::Char('c'), ctrl: true }) == Some(Message::Quit),
{
}

/// While a search is typed, every printable character goes into it, but
/// with Control held `c` quits.
pub proof fn law_typing_goes_into_search(v: AppView, c: char)
    requires
        v.screen == AppScreen::Main,
        !v.show_settings,
        v.nav.filter_mode,
    ensures
        key_message(v, Key { code: KeyCode::Char(c), ctrl: false }) == Some(Message::FilterChar(c)),
{
}

/// The name that the help gives a key: a character as itself, Control with
/// a letter as `^` and the capital letter, the space bar as `Space`, the
/// arrow keys as arrows. A key that the help cannot name (an arrow typed as
/// a character among them) gets the empty name.
pub open spec fn key_name(key: Key) -> Seq<char> {
    match key.code {
        KeyCode::Char(c) => if key.ctrl {
            if 'a' <= c && c <= 'z' {
                seq!['^', ((c as int) - 32) as char]
            } else {
                seq![]
            }
        } else if c == ' ' {
            seq!['S', 'p', 'a', 'c', 'e']
        } else if c == '\u{2190}' || c == '\u{2192}' || c == '\u{2191}' || c == '\u{2193}' {
            seq![]
        } else {
            seq![c]
        },
        KeyCode::Enter => seq!['E', 'n', 't', 'e', 'r'],
        KeyCode::Esc => seq!['E', 's', 'c'],
        KeyCode::Backspace => seq!['B', 'a', 'c', 'k', 's', 'p', 'a', 'c', 'e'],
        KeyCode::Left => seq!['\u{2190}'],
        KeyCode::Right => seq!['\u{2192}'],
        KeyCode::Up => seq!['\u{2191}'],
        KeyCode::Down => seq!['\u{2193}'],
        KeyCode::PageUp => seq!['P', 'g', 'U', 'p'],
        KeyCode::PageDown => seq!['P', 'g', 'D', 'n'],
        KeyCode::Other => seq![],
    }
}

/// Whether a help label names a key: the label is the key's name, or a
/// list of two names, `first / second`, of which it is one.
pub open spec fn label_names(label: Seq<char>, key: Key) -> bool {
    let k = key_name(key);
    let sep = seq![' ', '/', ' '];
    &&& k.len() > 0
    &&& {
        ||| label == k
        ||| (label.len() >= k.len() + 3 && label.take(k.len() as int) == k
            && label.subrange(k.len() as int, k.len() + 3int) == sep)
        ||| (label.len() >= k.len() + 3 && label.skip(label.len() - k.len() as int) == k
            && label.subrange(label.len() - k.len() - 3int, label.len() - k.len() as int) == sep)
    }
}

/// Every key that the help lists for a message sends that message on the
/// main screen (Esc clears the search when there is one, and otherwise goes
/// back a column).
pub proof fn law_help_keys_send_their_message(v: AppView, m: Message, key: Key)
    requires
        v.screen == AppScreen::Main,
        !v.show_settings,
        !v.nav.filter_mode,
        binding_spec(m) is Some,
        label_names(binding_spec(m).unwrap().0, key),
    ensures
        m is CancelFilter && v.nav.filter.len() == 0 ==> key_message(v, key) == Some(Message::FocusLeft),
        !(m is CancelFilter && v.nav.filter.len() == 0) ==> key_message(v, key) == Some(m),
{
    lemma_named_key(binding_spec(m).unwrap().0, key);
    lemma_key_of_name(key);
    match m {
        Message::Quit => {
            reveal_strlit("q");
        },
        Message::FocusLeft => {
            reveal_strlit("h / \u{2190}");
        },
        Message::FocusRight => {
            reveal_strlit("l / \u{2192}");
        },
        Message::MoveUp => {
            reveal_strlit("k / \u{2191}");
        },
        Message::MoveDown => {
            reveal_strlit("j / \u{2193}");
        },
        Message::MoveToTop => { reveal_strlit("g"); },
        Message::MoveToBottom => { reveal_strlit("G"); },
        Message::PageDown => {
            reveal_strlit("PgDn / ^F");
        },
        Message::PageUp => {
            reveal_strlit("PgUp / ^B");
        },
        Message::HalfPageDown => { reveal_strlit("^D"); },
        Message::HalfPageUp => { reveal_strlit("^U"); },
        Message::Enter => { reveal_strlit("Enter"); },
        Message::TogglePause => { reveal_strlit("Space"); },
        Message::NextTrack => { reveal_strlit("n"); },
        Message::PrevTrack => { reveal_strlit("p"); },
        Message::SeekBackward => { reveal_strlit("["); },
        Message::SeekForward => { reveal_strlit("]"); },
        Message::ScrollMetaDown => { reveal_strlit("J"); },
        Message::ScrollMetaUp => { reveal_strlit("K"); },
        Message::StartFilter => { reveal_strlit("/"); },
        Message::CancelFilter => { reveal_strlit("Esc"); },
        Message::Download => { reveal_strlit("d"); },
        Message::DownloadAll => { reveal_strlit("D"); },
        Message::ToggleSettings => { reveal_strlit("?"); },
        Message::Refresh => { reveal_strlit("r"); },
        Message::Yank => { reveal_strlit("y"); },
        _ => {},
    }
}

/// The key that a name stands for, for the names the help uses.
proof fn lemma_key_of_name(key: Key)
    ensures
        ({
            let k = key_name(key);
            &&& (k.len() == 1 && k[0] != '\u{2190}' && k[0] != '\u{2192}' && k[0] != '\u{2191}' && k[0] != '\u{2193}')
                ==> key.code == KeyCode::Char(k[0]) && !key.ctrl
            &&& k == seq!['\u{2190}'] ==> key.code == KeyCode::Left
            &&& k == seq!['\u{2192}'] ==> key.code == KeyCode::Right
            &&& k == seq!['\u{2191}'] ==> key.code == KeyCode::Up
            &&& k == seq!['\u{2193}'] ==> key.code == KeyCode::Down
            &&& k == seq!['^', 'D'] ==> key.code == KeyCode::Char('d') && key.ctrl
            &&& k == seq!['^', 'U'] ==> key.code == KeyCode::Char('u') && key.ctrl
            &&& k == seq!['^', 'F'] ==> key.code == KeyCode::Char('f') && key.ctrl
            &&& k == seq!['^', 'B'] ==> key.code == KeyCode::Char('b') && key.ctrl
            &&& k == seq!['S', 'p', 'a', 'c', 'e'] ==> key.code == KeyCode::Char(' ') && !key.ctrl
            &&& k == seq!['E', 'n', 't', 'e', 'r'] ==> key.code == KeyCode::Enter
            &&& k == seq!['E', 's', 'c'] ==> key.code == KeyCode::Esc
            &&& k == seq!['P', 'g', 'D', 'n'] ==> key.code == KeyCode::PageDown
            &&& k == seq!['P', 'g', 'U', 'p'] ==> key.code == KeyCode::PageUp
        }),
{
    let k = key_name(key);
    match key.code {
        KeyCode::Char(d) => {
            if key.ctrl {
                if 'a' <= d && d <= 'z' {
                    assert(k[1] == ((d as int) - 32) as char);
                    assert(k.len() == 2);
                    if k == seq!['^', 'D'] { assert(k[1] == 'D'); }
                    if k == seq!['^', 'U'] { assert(k[1] == 'U'); }
                    if k == seq!['^', 'F'] { assert(k[1] == 'F'); }
                    if k == seq!['^', 'B'] { assert(k[1] == 'B'); }
                } else {
                    assert(k.len() == 0);
                }
            } else if d == ' ' {
                assert(k.len() == 5);
                assert(k[0] == 'S');
            } else if d == '\u{2190}' || d == '\u{2192}' || d == '\u{2191}' || d == '\u{2193}' {
                assert(k.len() == 0);
            } else {
                assert(k.len() == 1);
                assert(k[0] == d);
            }
        },
        KeyCode::Left => { assert(k[0] == '\u{2190}' && k.len() == 1); },
        KeyCode::Right => { assert(k[0] == '\u{2192}' && k.len() == 1); },
        KeyCode::Up => { assert(k[0] == '\u{2191}' && k.len() == 1); },
        KeyCode::Down => { assert(k[0] == '\u{2193}' && k.len() == 1); },
        KeyCode::Enter => { assert(k.len() == 5 && k[0] == 'E' && k[1] == 'n'); },
        KeyCode::Esc => { assert(k.len() == 3 && k[0] == 'E' && k[1] == 's'); },
        KeyCode::Backspace => { assert(k.len() == 9); },
        KeyCode::PageUp => { assert(k.len() == 4 && k[2] == 'U'); },
        KeyCode::PageDown => { assert(k.len() == 4 && k[2] == 'D'); },
        KeyCode::Other => { assert(k.len() == 0); },
    }
}

/// Where a label names a key, the key's name stands in the label, whole or
/// as one of its two parts.
proof fn lemma_named_key(label: Seq<char>, key: Key)
    requires
        label_names(label, key),
    ensures
        ({
            let k = key_name(key);
            let j = label.len() - k.len();
            ||| label == k && (k.contains('/') ==> k == seq!['/'])
            ||| (j >= 3 && label.take(k.len() as int) == k && label[k.len() + 1int] == '/')
            ||| (j >= 3 && label.skip(j) == k && label[j - 2] == '/')
        }),
{
    let k = key_name(key);
    let j = label.len() - k.len();
    let sep = seq![' ', '/', ' '];
    if label.len() >= k.len() + 3 && label.take(k.len() as int) == k && label.subrange(k.len() as int, k.len() + 3int) == sep {
        assert(label.subrange(k.len() as int, k.len() + 3int)[1] == '/');
    } else if label.len() >= k.len() + 3 && label.skip(j) == k && label.subrange(j - 3, j) == sep {
        assert(label.subrange(j - 3, j)[1] == '/');
    } else {
        assert(label == k);
        if k.contains('/') {
            let i = choose|i: int| 0 <= i < k.len() && k[i] == '/';
            match key.code {
                KeyCode::Char(c) => {},
                _ => {},
            }
        }
    }
}

/// In the info view, the keys that the help lists for moving down and up
/// scroll it by a line, its own key `?` (or Esc) closes it, and `q` quits.
pub proof fn law_info_view_keys(v: AppView, key: Key)
    requires
        v.screen == AppScreen::Main,
        v.show_settings,
    ensures
        label_names(binding_spec(Message::MoveDown).unwrap().0, key) ==> key_message(v, key) == Some(Message::ScrollSettings(1isize)),
        label_names(binding_spec(Message::MoveUp).unwrap().0, key) ==> key_message(v, key) == Some(Message::ScrollSettings(-1isize)),
        label_names(binding_spec(Message::ToggleSettings).unwrap().0, key) ==> key_message(v, key) == Some(Message::ToggleSettings),
        label_names(binding_spec(Message::Quit).unwrap().0, key) ==> key_message(v, key) == Some(Message::Quit),
{
    lemma_key_of_name(key);
    reveal_strlit("j / \u{2193}");
    reveal_strlit("k / \u{2191}");
    reveal_strlit("?");
    reveal_strlit("q");
    if label_names(binding_spec(Message::MoveDown).unwrap().0, key) {
        lemma_named_key(binding_spec(Message::MoveDown).unwrap().0, key);
    }
    if label_names(binding_spec(Message::MoveUp).unwrap().0, key) {
        lemma_named_key(binding_spec(Message::MoveUp).unwrap().0, key);
    }
    if label_names(binding_spec(Message::ToggleSettings).unwrap().0, key) {
        lemma_named_key(binding_spec(Message::ToggleSettings).unwrap().0, key);
    }
    if label_names(binding_spec(Message::Quit).unwrap().0, key) {
        lemma_named_key(binding_spec(Message::Quit).unwrap().0, key);
    }
}

} // verus!


