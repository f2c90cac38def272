//! The player's state and what the key, mouse and task messages do to it.
//!
//! `App::update` is the state machine of the player: it takes a message,
//! changes the state, and returns the effects that the program around it
//! performs (audio, network, files, clipboard). Where such work decides what
//! happens next, the program reports its outcome through the methods below
//! `update`.
use vstd::prelude::*;
use crate::album_page::AlbumDetail;
use crate::artists::ArtistIndex;
use crate::layout::{
    Area, page_size, page_size_spec, half_page, half_page_spec, moved_selection,
    move_selection_index, visible_offset, ensure_visible_offset, scrolled_offset, scroll_offset,
};
use crate::library::{
    LibraryIndex, DownloadedAlbumView, DownloadedTrack, AlbumDownloadStatus, library_view, synced_tracks,
    first_track, lemma_first_track_bounds, lemma_first_track_update,
};
use crate::views::track_downloaded;
use crate::models::{Album, Track};
use crate::nav::{
    Column, ListSel, Nav, NavView, select_spec, active_filter_changed, artist_changed,
    album_changed, track_filter, first_row,
};
use crate::queue::{PlayQueue, QueueItem};
use crate::screens::{AppScreen, LoginStep};
use crate::text::{chars_of, string_of, decimal, decimal_chars};
use crate::mp3::{audio_start, mp3_bitrate_spec, parse_mp3_bitrate};
use crate::artists::artist_names;
use crate::nav::{artist_filter, empty_nav, range_seq, artist_albums, album_tracks};
use crate::config::FormatChoice;
use crate::library::{prepare_album_entry, entry_for};

verus! {

/// Where the panes were last drawn.
#[derive(PartialEq, Eq, Structural, Clone, Copy, Debug)]
pub struct Panes {
    pub artists: Area,
    pub albums: Area,
    pub tracks: Area,
    pub now_playing: Area,
}

/// Work for the program around the state machine.
#[derive(PartialEq, Eq, Structural, Clone, Copy, Debug)]
pub enum Effect {
    /// Save the player state before quitting.
    PersistState,
    /// Find the tracks of the album at this collection position: its saved
    /// metadata, else the library, else the album page.
    LoadAlbumDetails(usize),
    /// Start playing the queue's current track.
    StartPlayback,
    /// Pause or resume the audio.
    TogglePause,
    /// Seek by this many seconds.
    Seek(i64),
    /// Download what the focused column shows.
    Download(Column),
    /// Download the whole collection.
    DownloadAll,
    /// Drop the collection cache and reload the collection.
    Refresh,
    /// Copy the link of what is selected.
    Yank,
    /// Open the login page in the browser.
    OpenLogin,
    /// Read the login cookie from the browser.
    ExtractCookie,
    /// Save the metadata of the album at this collection position.
    SaveAlbumMetadata(usize),
    /// Save the library index.
    SaveLibrary,
    /// Save the collection cache.
    SaveCollectionCache,
    /// The queue ran out: stop the play clock.
    PlaybackEnded,
}

/// What the keyboard, the mouse and the background tasks report.
pub enum Message {
    Quit,
    FocusLeft,
    FocusRight,
    FocusColumn(Column),
    SelectAt(Column, usize),
    ScrollColumn(Column, isize),
    MoveUp,
    MoveDown,
    MoveToTop,
    MoveToBottom,
    PageDown,
    PageUp,
    HalfPageDown,
    HalfPageUp,
    Enter,
    TogglePause,
    NextTrack,
    PrevTrack,
    SeekBackward,
    SeekForward,
    ScrollMetaDown,
    ScrollMetaUp,
    StartFilter,
    FilterChar(char),
    FilterBackspace,
    CancelFilter,
    ConfirmFilter,
    Download,
    DownloadAll,
    ToggleSettings,
    ScrollSettings(isize),
    Refresh,
    Yank,
    OpenLogin,
    ExtractCookie,
    AlbumDetailLoaded { idx: usize, detail: AlbumDetail },
    AlbumDetailFailed(String),
    PrefetchResult { idx: usize, detail: AlbumDetail },
    PrefetchDone,
    Mp3Failed(String),
    TrackFinished,
    PlaybackError(String),
    DownloadTrackDone { item_id: u64, track_num: u32 },
    DownloadAlbumDone { item_id: u64 },
    DownloadError { item_id: u64, msg: String },
}

/// The player's state.
pub struct App {
    pub screen: AppScreen,
    pub show_settings: bool,
    pub settings_scroll: u16,
    pub albums: Vec<Album>,
    pub artist_index: ArtistIndex,
    pub queue: PlayQueue,
    pub nav: Nav,
    pub library: LibraryIndex,
    pub meta_scroll: usize,
    pub loading_tracks: bool,
    pub status_msg: String,
    pub should_quit: bool,
    pub dirty: bool,
    pub login_step: LoginStep,
    pub panes: Panes,
    pub prefetch_total: usize,
    pub prefetch_done: usize,
    pub stream_bitrate: Option<String>,
}

/// Model of the player's state (the artist index aside, which only a new
/// collection changes).
#[verifier::ext_equal]
pub struct AppView {
    pub screen: AppScreen,
    pub show_settings: bool,
    pub settings_scroll: u16,
    pub albums: Seq<Album>,
    pub queue_items: Seq<QueueItem>,
    pub queue_current: Option<usize>,
    pub nav: NavView,
    pub library: Map<u64, DownloadedAlbumView>,
    pub meta_scroll: usize,
    pub loading_tracks: bool,
    pub status: Seq<char>,
    pub should_quit: bool,
    pub dirty: bool,
    pub login_step: LoginStep,
    pub panes: Panes,
    pub prefetch_total: usize,
    pub prefetch_done: usize,
    pub stream_bitrate: Option<Seq<char>>,
}

impl View for App {
    type V = AppView;

    open spec fn view(&self) -> AppView {
        AppView {
            screen: self.screen,
            show_settings: self.show_settings,
            settings_scroll: self.settings_scroll,
            albums: self.albums@,
            queue_items: self.queue.items@,
            queue_current: self.queue.current,
            nav: self.nav@,
            library: library_view(self.library.albums@),
            meta_scroll: self.meta_scroll,
            loading_tracks: self.loading_tracks,
            status: self.status_msg@,
            should_quit: self.should_quit,
            dirty: self.dirty,
            login_step: self.login_step,
            panes: self.panes,
            prefetch_total: self.prefetch_total,
            prefetch_done: self.prefetch_done,
            stream_bitrate: match self.stream_bitrate {
                Some(s) => Some(s@),
                None => None,
            },
        }
    }
}

// ---------------------------------------------------------------------------
// Columns
// ---------------------------------------------------------------------------

/// The selection state of a column.
pub open spec fn col_state(n: NavView, c: Column) -> ListSel {
    match c {
        Column::Artists => n.artist_state,
        Column::Albums => n.album_state,
        Column::Tracks => n.track_state,
    }
}

/// The rows listed in a column.
pub open spec fn col_len(n: NavView, c: Column) -> nat {
    match c {
        Column::Artists => n.artist_filtered.len(),
        Column::Albums => n.album_filtered.len(),
        Column::Tracks => n.track_filtered.len(),
    }
}

/// The pane of a column.
pub open spec fn col_pane(p: Panes, c: Column) -> Area {
    match c {
        Column::Artists => p.artists,
        Column::Albums => p.albums,
        Column::Tracks => p.tracks,
    }
}

/// The navigation state with a column's selection state replaced.
pub open spec fn with_state(n: NavView, c: Column, s: ListSel) -> NavView {
    match c {
        Column::Artists => NavView { artist_state: s, ..n },
        Column::Albums => NavView { album_state: s, ..n },
        Column::Tracks => NavView { track_state: s, ..n },
    }
}

/// The navigation state without search text.
pub open spec fn cleared(n: NavView) -> NavView {
    NavView { filter: seq![], ..n }
}

/// After a move of the focused column's selection: it is scrolled into view,
/// and the columns to its right follow.
pub open spec fn selection_moved(n: NavView, p: Panes, idx: ArtistIndex, albums: Seq<Album>) -> NavView {
    let s = col_state(n, n.focus);
    let off = visible_offset(s.selected, s.offset, col_len(n, n.focus), col_pane(p, n.focus).height);
    let n1 = with_state(n, n.focus, ListSel { offset: off, ..s });
    match n.focus {
        Column::Artists => artist_changed(n1, idx, albums),
        Column::Albums => album_changed(n1, idx, albums),
        Column::Tracks => n1,
    }
}

/// The focused column's selection moved by `delta` rows (no change in an
/// empty column).
pub open spec fn moved(n: NavView, delta: int) -> NavView {
    let s = col_state(n, n.focus);
    let len = col_len(n, n.focus);
    if len == 0 {
        n
    } else {
        with_state(n, n.focus, select_spec(s, moved_selection(s.selected, len, delta)))
    }
}

/// Whether the album at a collection position has no tracks yet.
pub open spec fn needs_tracks(albums: Seq<Album>, a: usize) -> bool {
    a < albums.len() && albums[a as int].tracks@.len() == 0
}

/// The track column of album `a` prepared while its tracks load: when they
/// are not known yet the column is refilled, its first row selected if any.
pub open spec fn prepare_tracks(n: NavView, a: usize, albums: Seq<Album>) -> NavView {
    if needs_tracks(albums, a) {
        let tf = track_filter(n, albums);
        let n2 = NavView { track_filtered: tf, ..n };
        if tf.len() > 0 {
            NavView { track_state: select_spec(n2.track_state, Some(0)), ..n2 }
        } else {
            n2
        }
    } else {
        n
    }
}

/// Opening the track column of the selected album `a`: it is prepared, then
/// the focus moves to it and it is refilled.
pub open spec fn open_tracks(n: NavView, a: usize, idx: ArtistIndex, albums: Seq<Album>) -> NavView {
    active_filter_changed(NavView { focus: Column::Tracks, ..prepare_tracks(n, a, albums) }, idx, albums)
}

/// The effects of opening the track column of album `a`.
pub open spec fn open_tracks_effects(albums: Seq<Album>, a: usize) -> Seq<Effect> {
    if needs_tracks(albums, a) {
        seq![Effect::LoadAlbumDetails(a)]
    } else {
        seq![]
    }
}

/// The navigation after focusing the column `col` by a click or a move:
/// the search text is dropped; the artist column can always take the focus,
/// the album column when it lists albums, the track column when an album is
/// selected.
pub open spec fn focus_to(n: NavView, col: Column, idx: ArtistIndex, albums: Seq<Album>) -> NavView {
    let n1 = cleared(n);
    match col {
        Column::Artists => active_filter_changed(NavView { focus: Column::Artists, ..n1 }, idx, albums),
        Column::Albums => if n.album_filtered.len() > 0 {
            active_filter_changed(NavView { focus: Column::Albums, ..n1 }, idx, albums)
        } else {
            n1
        },
        Column::Tracks => match n.selected_album {
            Some(a) => open_tracks(n1, a, idx, albums),
            None => n1,
        },
    }
}

/// The effects of focusing the column `col`.
pub open spec fn focus_to_effects(n: NavView, col: Column, albums: Seq<Album>) -> Seq<Effect> {
    match col {
        Column::Tracks => match n.selected_album {
            Some(a) => open_tracks_effects(albums, a),
            None => seq![],
        },
        _ => seq![],
    }
}

/// Concatenates two strings.
pub fn concat(a: &str, b: &str) -> (r: String)
    ensures
        r@ == a@ + b@,
{
    let mut v = chars_of(a);
    let w = chars_of(b);
    v.extend_from_slice(w.as_slice());
    string_of(v.as_slice())
}

/// A string from its characters.
fn text(s: &str) -> (r: String)
    ensures
        r@ == s@,
{
    s.to_owned()
}

impl App {
    /// The selection state of a column.
    fn state_of(&self, c: Column) -> (r: ListSel)
        ensures
            r == col_state(self.nav@, c),
    {
        match c {
            Column::Artists => self.nav.artist_state,
            Column::Albums => self.nav.album_state,
            Column::Tracks => self.nav.track_state,
        }
    }

    /// The rows listed in a column.
    fn len_of(&self, c: Column) -> (r: usize)
        ensures
            r == col_len(self.nav@, c),
    {
        match c {
            Column::Artists => self.nav.artist_filtered.len(),
            Column::Albums => self.nav.album_filtered.len(),
            Column::Tracks => self.nav.track_filtered.len(),
        }
    }

    /// The pane of a column.
    fn pane_of(&self, c: Column) -> (r: Area)
        ensures
            r == col_pane(self.panes, c),
    {
        match c {
            Column::Artists => self.panes.artists,
            Column::Albums => self.panes.albums,
            Column::Tracks => self.panes.tracks,
        }
    }

    /// Replaces a column's selection state.
    fn set_state(&mut self, c: Column, s: ListSel)
        ensures
            final(self)@ == (AppView { nav: with_state(old(self)@.nav, c, s), ..old(self)@ }),
            final(self).artist_index == old(self).artist_index,
    {
        match c {
            Column::Artists => self.nav.artist_state = s,
            Column::Albums => self.nav.album_state = s,
            Column::Tracks => self.nav.track_state = s,
        }
        assert(self@ =~= (AppView { nav: with_state(old(self)@.nav, c, s), ..old(self)@ }));
    }

    /// Drops the search text.
    fn clear_filter(&mut self)
        ensures
            final(self)@ == (AppView { nav: cleared(old(self)@.nav), ..old(self)@ }),
            final(self).artist_index == old(self).artist_index,
    {
        self.nav.filter_text = String::new();
        assert(self@ =~= (AppView { nav: cleared(old(self)@.nav), ..old(self)@ }));
    }

    /// Refills the focused column and those to its right.
    fn recompute_active_filter(&mut self)
        ensures
            final(self)@ == (AppView {
                nav: active_filter_changed(old(self)@.nav, old(self).artist_index, old(self)@.albums),
                ..old(self)@
            }),
            final(self).artist_index == old(self).artist_index,
    {
        self.nav.recompute_active_filter(&self.artist_index, &self.albums);
        assert(self@ =~= (AppView {
            nav: active_filter_changed(old(self)@.nav, old(self).artist_index, old(self)@.albums),
            ..old(self)@
        }));
    }

    /// Scrolls the focused column to its selection and lets the columns to
    /// its right follow.
    fn on_selection_moved(&mut self)
        ensures
            final(self)@ == (AppView {
                nav: selection_moved(old(self)@.nav, old(self).panes, old(self).artist_index, old(self)@.albums),
                ..old(self)@
            }),
            final(self).artist_index == old(self).artist_index,
    {
        let f = self.nav.focus;
        let s = self.state_of(f);
        let off = ensure_visible_offset(s.selected, s.offset, self.len_of(f), self.pane_of(f).height);
        self.set_state(f, ListSel { offset: off, ..s });
        match f {
            Column::Artists => self.nav.on_artist_changed(&self.artist_index, &self.albums),
            Column::Albums => self.nav.on_album_changed(&self.artist_index, &self.albums),
            Column::Tracks => {},
        }
        assert(self@ =~= (AppView {
            nav: selection_moved(old(self)@.nav, old(self).panes, old(self).artist_index, old(self)@.albums),
            ..old(self)@
        }));
    }

    /// Moves the focused column's selection by `delta` rows.
    fn move_selection(&mut self, delta: i64)
        requires
            delta > i64::MIN,
        ensures
            final(self)@ == (AppView { nav: moved(old(self)@.nav, delta as int), ..old(self)@ }),
            final(self).artist_index == old(self).artist_index,
    {
        let f = self.nav.focus;
        let len = self.len_of(f);
        if len == 0 {
            return;
        }
        let mut s = self.state_of(f);
        let new = move_selection_index(s.selected, len, delta);
        s.select(new);
        self.set_state(f, s);
    }

    /// Prepares the track column of album `a`, whose tracks are loaded when
    /// unknown.
    fn prepare_tracks(&mut self, a: usize) -> (effects: Vec<Effect>)
        ensures
            final(self)@ == (AppView { nav: prepare_tracks(old(self)@.nav, a, old(self)@.albums), ..old(self)@ }),
            final(self).artist_index == old(self).artist_index,
            effects@ == open_tracks_effects(old(self)@.albums, a),
    {
        let mut effects: Vec<Effect> = Vec::new();
        if a < self.albums.len() && self.albums[a].tracks.len() == 0 {
            effects.push(Effect::LoadAlbumDetails(a));
            self.nav.recompute_track_filter(&self.albums);
            if self.nav.track_filtered.len() > 0 {
                self.nav.track_state.select(Some(0));
            }
        }
        assert(self@ =~= (AppView { nav: prepare_tracks(old(self)@.nav, a, old(self)@.albums), ..old(self)@ }));
        assert(effects@ =~= open_tracks_effects(old(self)@.albums, a));
        effects
    }

    /// Opens the track column of album `a`, loading its tracks when unknown.
    fn open_tracks(&mut self, a: usize) -> (effects: Vec<Effect>)
        ensures
            final(self)@ == (AppView {
                nav: open_tracks(old(self)@.nav, a, old(self).artist_index, old(self)@.albums),
                ..old(self)@
            }),
            final(self).artist_index == old(self).artist_index,
            effects@ == open_tracks_effects(old(self)@.albums, a),
    {
        let effects = self.prepare_tracks(a);
        self.nav.focus = Column::Tracks;
        self.recompute_active_filter();
        effects
    }

    /// Focuses a column.
    fn focus_to(&mut self, col: Column) -> (effects: Vec<Effect>)
        ensures
            final(self)@ == (AppView {
                nav: focus_to(old(self)@.nav, col, old(self).artist_index, old(self)@.albums),
                ..old(self)@
            }),
            final(self).artist_index == old(self).artist_index,
            effects@ == focus_to_effects(old(self)@.nav, col, old(self)@.albums),
    {
        self.clear_filter();
        match col {
            Column::Artists => {
                self.nav.focus = Column::Artists;
                self.recompute_active_filter();
                Vec::new()
            },
            Column::Albums => {
                if self.nav.album_filtered.len() > 0 {
                    self.nav.focus = Column::Albums;
                    self.recompute_active_filter();
                }
                Vec::new()
            },
            Column::Tracks => match self.nav.selected_album_idx {
                Some(a) => self.open_tracks(a),
                None => Vec::new(),
            },
        }
    }
}

// ---------------------------------------------------------------------------
// The steps of the state machine
// ---------------------------------------------------------------------------

/// Moving the focus one column to the left drops the search text.
pub open spec fn focus_left(n: NavView, idx: ArtistIndex, albums: Seq<Album>) -> NavView {
    let n1 = cleared(n);
    match n.focus {
        Column::Tracks => active_filter_changed(NavView { focus: Column::Albums, ..n1 }, idx, albums),
        Column::Albums => active_filter_changed(NavView { focus: Column::Artists, ..n1 }, idx, albums),
        Column::Artists => n1,
    }
}

/// Moving the focus one column to the right.
pub open spec fn focus_right(n: NavView, idx: ArtistIndex, albums: Seq<Album>) -> NavView {
    match n.focus {
        Column::Artists => focus_to(n, Column::Albums, idx, albums),
        Column::Albums => focus_to(n, Column::Tracks, idx, albums),
        Column::Tracks => cleared(n),
    }
}

/// The effects of moving the focus to the right.
pub open spec fn focus_right_effects(n: NavView, albums: Seq<Album>) -> Seq<Effect> {
    match n.focus {
        Column::Albums => focus_to_effects(n, Column::Tracks, albums),
        _ => seq![],
    }
}

/// A column scrolled by `delta` rows, the selection left where it is.
pub open spec fn scrolled(n: NavView, p: Panes, col: Column, delta: int) -> NavView {
    let s = col_state(n, col);
    let len = col_len(n, col);
    let h = col_pane(p, col).height;
    if len == 0 || h < 3 {
        n
    } else {
        with_state(n, col, ListSel { offset: scrolled_offset(len, h, s.offset, delta), ..s })
    }
}

/// A click on row `i` of a column: the row is selected and the column
/// focused (refilled if it was not), then as after a selection move.
pub open spec fn select_at(n: NavView, p: Panes, col: Column, i: usize, idx: ArtistIndex, albums: Seq<Album>) -> NavView {
    if i < col_len(n, col) {
        let n1 = with_state(n, col, select_spec(col_state(n, col), Some(i)));
        let n2 = NavView { focus: col, ..n1 };
        let n3 = if n.focus != col {
            active_filter_changed(n2, idx, albums)
        } else {
            n2
        };
        selection_moved(n3, p, idx, albums)
    } else {
        n
    }
}

/// The focused column's first row selected.
pub open spec fn to_top(n: NavView) -> NavView {
    with_state(n, n.focus, select_spec(col_state(n, n.focus), Some(0)))
}

/// The focused column's last row selected, when it has rows.
pub open spec fn to_bottom(n: NavView) -> NavView {
    let len = col_len(n, n.focus);
    if len > 0 {
        with_state(n, n.focus, select_spec(col_state(n, n.focus), Some((len - 1) as usize)))
    } else {
        n
    }
}

/// A character typed into the search: the focused column is refilled and
/// its first row selected.
pub open spec fn filter_typed(n: NavView, c: char, idx: ArtistIndex, albums: Seq<Album>) -> NavView {
    let n1 = active_filter_changed(NavView { filter: n.filter.push(c), ..n }, idx, albums);
    with_state(n1, n1.focus, select_spec(col_state(n1, n1.focus), Some(0)))
}

/// The search text without its last character.
pub open spec fn backspaced(f: Seq<char>) -> Seq<char> {
    if f.len() > 0 {
        f.drop_last()
    } else {
        f
    }
}

/// Entering the album `a`: as opening its tracks, but the search text is
/// dropped after the track column is prepared.
pub open spec fn enter_album(n: NavView, a: usize, idx: ArtistIndex, albums: Seq<Album>) -> NavView {
    active_filter_changed(NavView { focus: Column::Tracks, ..cleared(prepare_tracks(n, a, albums)) }, idx, albums)
}

/// The queue entry of a track of an album.
pub open spec fn queue_item_of(al: Album, t: Track) -> QueueItem {
    QueueItem {
        track: t,
        item_id: al.item_id,
        album_title: al.album_title,
        artist_name: al.artist_name,
        art_url: al.art_url,
        about: al.about,
        credits: al.credits,
        release_date: al.release_date,
    }
}

/// The queue of an album's tracks.
pub open spec fn album_queue(al: Album) -> Seq<QueueItem> {
    al.tracks@.map_values(|t: Track| queue_item_of(al, t))
}

/// The selected album and the position in it of the selected track.
pub open spec fn selected_track(v: AppView) -> Option<(usize, usize)> {
    match v.nav.selected_album {
        None => None,
        Some(a) => match v.nav.track_state.selected {
            None => None,
            Some(s) => if s < v.nav.track_filtered.len() && a < v.albums.len() {
                Some((a, v.nav.track_filtered[s as int]))
            } else {
                None
            },
        },
    }
}

/// Enter: opens the selected artist or album, or plays the selected track
/// (the queue becomes the album, from that track on).
pub open spec fn enter_step(v: AppView, idx: ArtistIndex) -> (AppView, Seq<Effect>) {
    let n = v.nav;
    match n.focus {
        Column::Artists => if n.album_filtered.len() > 0 {
            (AppView { nav: active_filter_changed(NavView { focus: Column::Albums, ..cleared(n) }, idx, v.albums), ..v }, seq![])
        } else {
            (v, seq![])
        },
        Column::Albums => match n.selected_album {
            Some(a) => (
                AppView { nav: enter_album(n, a, idx, v.albums), status: seq![], ..v },
                open_tracks_effects(v.albums, a),
            ),
            None => (v, seq![]),
        },
        Column::Tracks => match selected_track(v) {
            Some((a, t)) => (
                AppView {
                    queue_items: album_queue(v.albums[a as int]),
                    queue_current: crate::queue::start_position(v.albums[a as int].tracks@.len(), t as nat),
                    ..v
                },
                seq![Effect::StartPlayback],
            ),
            None => (v, seq![]),
        },
    }
}

/// The next track: the queue moves on and its track is selected and played,
/// or at the end the status says so and the clock stops.
pub open spec fn next_step(v: AppView) -> (AppView, Seq<Effect>) {
    if v.queue_current is Some && crate::queue::next_moves(v.queue_items.len(), v.queue_current) {
        let cur = crate::queue::next_position(v.queue_items.len(), v.queue_current);
        (
            AppView {
                queue_current: cur,
                nav: NavView { track_state: select_spec(v.nav.track_state, cur), ..v.nav },
                ..v
            },
            seq![Effect::StartPlayback],
        )
    } else {
        (AppView { status: "End of queue"@, ..v }, seq![Effect::PlaybackEnded])
    }
}

/// The previous track (the first stays): selected and played, when the
/// queue has a current track.
pub open spec fn prev_step(v: AppView) -> (AppView, Seq<Effect>) {
    if v.queue_items.len() > 0 && v.queue_current is Some {
        let cur = crate::queue::prev_position(v.queue_current);
        (
            AppView {
                queue_current: cur,
                nav: NavView { track_state: select_spec(v.nav.track_state, cur), ..v.nav },
                ..v
            },
            seq![Effect::StartPlayback],
        )
    } else {
        (v, seq![])
    }
}

/// An album with the tracks and texts of its page.
pub open spec fn with_detail(al: Album, d: AlbumDetail) -> Album {
    Album { tracks: d.tracks, about: d.about, credits: d.credits, release_date: d.release_date, ..al }
}

/// The tracks of the album being opened have arrived: the album takes them,
/// its metadata is saved, the track column is refilled (its first row
/// selected if nothing is), and the loading is over.
pub open spec fn detail_loaded(v: AppView, i: usize, d: AlbumDetail) -> (AppView, Seq<Effect>) {
    let albums2 = v.albums.update(i as int, with_detail(v.albums[i as int], d));
    let tf = track_filter(v.nav, albums2);
    let n1 = NavView { track_filtered: tf, ..v.nav };
    let n2 = if tf.len() > 0 && n1.track_state.selected is None {
        NavView { track_state: select_spec(n1.track_state, Some(0)), ..n1 }
    } else {
        n1
    };
    (
        AppView { albums: albums2, nav: n2, status: seq![], loading_tracks: false, dirty: true, ..v },
        seq![Effect::SaveAlbumMetadata(i)],
    )
}

/// The library with an album's downloaded tracks taking the durations of a
/// track listing.
pub open spec fn durations_synced(lib: Map<u64, DownloadedAlbumView>, item_id: u64, ts: Seq<Track>) -> Map<u64, DownloadedAlbumView> {
    if lib.contains_key(item_id) {
        lib.insert(item_id, DownloadedAlbumView { tracks: synced_tracks(lib[item_id].tracks, ts), ..lib[item_id] })
    } else {
        lib
    }
}

/// The status while album metadata is fetched in the background.
pub open spec fn syncing_text(done: nat, total: nat) -> Seq<char> {
    "syncing album metadata ("@ + decimal(done) + "/"@ + decimal(total) + ")..."@
}

/// An album fetched in the background: it takes its tracks and texts, its
/// metadata is saved, the library takes its durations, the count moves on.
pub open spec fn prefetched(v: AppView, i: usize, d: AlbumDetail) -> (AppView, Seq<Effect>) {
    let al2 = with_detail(v.albums[i as int], d);
    let albums2 = v.albums.update(i as int, al2);
    let done = (v.prefetch_done + 1) as usize;
    (
        AppView {
            albums: albums2,
            library: durations_synced(v.library, al2.item_id, al2.tracks@),
            prefetch_done: done,
            status: syncing_text(done as nat, v.prefetch_total as nat),
            nav: NavView { track_filtered: track_filter(v.nav, albums2), ..v.nav },
            dirty: true,
            ..v
        },
        seq![Effect::SaveAlbumMetadata(i), Effect::SaveLibrary],
    )
}

/// The library with the first track numbered `track_num` of an album marked
/// downloaded.
pub open spec fn track_marked(lib: Map<u64, DownloadedAlbumView>, item_id: u64, track_num: u32) -> Map<u64, DownloadedAlbumView> {
    if lib.contains_key(item_id) {
        let a = lib[item_id];
        match first_track(a.tracks, track_num) {
            Some(i) => lib.insert(
                item_id,
                DownloadedAlbumView { tracks: a.tracks.update(i, DownloadedTrack { downloaded: true, ..a.tracks[i] }), ..a },
            ),
            None => lib,
        }
    } else {
        lib
    }
}

/// Clearing the search lists every row again: after `CancelFilter` no
/// search is kept, and the focused column and the columns to its right list
/// all of their rows.
pub proof fn law_cleared_search_lists_every_row(v: AppView, idx: ArtistIndex)
    ensures
        ({
            let n2 = step(v, idx, Message::CancelFilter).0.nav;
            &&& n2.filter.len() == 0
            &&& !n2.filter_mode
            &&& n2.focus == v.nav.focus
            &&& n2.track_filtered == range_seq(album_tracks(v.albums, n2.selected_album).len())
            &&& n2.focus != Column::Tracks ==> n2.album_filtered == range_seq(artist_albums(n2, idx).len())
            &&& n2.focus == Column::Artists ==> n2.artist_filtered == range_seq(idx.artists@.len())
        }),
{
}

/// Moving the focus to another column drops the search text.
pub proof fn law_moving_focus_drops_search(v: AppView, idx: ArtistIndex, col: Column)
    ensures
        step(v, idx, Message::FocusLeft).0.nav.filter.len() == 0,
        step(v, idx, Message::FocusRight).0.nav.filter.len() == 0,
        col != v.nav.focus ==> step(v, idx, Message::FocusColumn(col)).0.nav.filter.len() == 0,
{
}

/// After a track download is reported, the library shows that track
/// downloaded, when the album and a track of that number are in it.
pub proof fn law_reported_track_is_downloaded(v: AppView, idx: ArtistIndex, item_id: u64, track_num: u32)
    requires
        v.library.contains_key(item_id),
        first_track(v.library[item_id].tracks, track_num) is Some,
    ensures
        track_downloaded(step(v, idx, Message::DownloadTrackDone { item_id, track_num }).0.library, item_id, track_num),
{
    let a = v.library[item_id];
    let i = first_track(a.tracks, track_num).unwrap();
    lemma_first_track_bounds(a.tracks, track_num);
    lemma_first_track_update(a.tracks, track_num, i, DownloadedTrack { downloaded: true, ..a.tracks[i] });
}

/// After an album download finishes, the library holds the album as
/// complete, so that it counts as downloaded.
pub proof fn law_finished_album_is_downloaded(v: AppView, idx: ArtistIndex, item_id: u64)
    requires
        v.library.contains_key(item_id),
    ensures
        ({
            let lib2 = step(v, idx, Message::DownloadAlbumDone { item_id }).0.library;
            lib2.contains_key(item_id) && lib2[item_id].status == AlbumDownloadStatus::Complete
        }),
{
}

/// The rows listed in a column, as positions.
pub open spec fn col_rows(n: NavView, c: Column) -> Seq<usize> {
    match c {
        Column::Artists => n.artist_filtered,
        Column::Albums => n.album_filtered,
        Column::Tracks => n.track_filtered,
    }
}

/// Whether a message moves the focused column's selection.
pub open spec fn is_move_message(msg: Message) -> bool {
    ||| msg is MoveUp
    ||| msg is MoveDown
    ||| msg is MoveToTop
    ||| msg is MoveToBottom
    ||| msg is PageDown
    ||| msg is PageUp
    ||| msg is HalfPageDown
    ||| msg is HalfPageUp
}

/// Scrolling the moved selection into view and refilling the columns to its
/// right leave the focused column's rows and selected row as they were.
proof fn lemma_selection_moved_keeps_column(n: NavView, p: Panes, idx: ArtistIndex, albums: Seq<Album>)
    ensures
        ({
            let n2 = selection_moved(n, p, idx, albums);
            &&& n2.focus == n.focus
            &&& col_rows(n2, n.focus) == col_rows(n, n.focus)
            &&& col_state(n2, n.focus).selected == col_state(n, n.focus).selected
        }),
{
}

/// A move by `delta` rows changes only the focused column's selection.
proof fn lemma_moved_column(n: NavView, delta: int)
    requires
        col_len(n, n.focus) > 0,
    ensures
        ({
            let n2 = moved(n, delta);
            &&& n2.focus == n.focus
            &&& col_rows(n2, n.focus) == col_rows(n, n.focus)
            &&& col_state(n2, n.focus).selected
                == moved_selection(col_state(n, n.focus).selected, col_len(n, n.focus), delta)
        }),
{
}

/// What a move message does to the state, before the selection is scrolled
/// into view.
proof fn lemma_step_of_move(v: AppView, idx: ArtistIndex, msg: Message)
    requires
        is_move_message(msg),
    ensures
        ({
            let n = v.nav;
            let page = page_size_spec(col_pane(v.panes, n.focus).height) as int;
            let half = half_page_spec(col_pane(v.panes, n.focus).height) as int;
            let pre = match msg {
                Message::MoveUp => moved(n, -1),
                Message::MoveDown => moved(n, 1),
                Message::MoveToTop => to_top(n),
                Message::MoveToBottom => to_bottom(n),
                Message::PageDown => moved(n, page),
                Message::PageUp => moved(n, -page),
                Message::HalfPageDown => moved(n, half),
                _ => moved(n, -half),
            };
            step(v, idx, msg).0.nav == selection_moved(pre, v.panes, idx, v.albums)
        }),
{
    assert(is_nav_message(msg));
    assert(!is_focus_message(msg));
}

/// A move in a column that lists rows keeps its rows and selects one of
/// them: one row down or up, stopping at the ends; a page or half a page of
/// the pane; the first or the last row.
pub proof fn law_moves_select_within_column(v: AppView, idx: ArtistIndex, msg: Message)
    requires
        is_move_message(msg),
        col_len(v.nav, v.nav.focus) > 0,
        col_state(v.nav, v.nav.focus).selected matches Some(s0) ==> s0 < col_len(v.nav, v.nav.focus),
    ensures
        ({
            let f = v.nav.focus;
            let len = col_len(v.nav, f);
            let before = col_state(v.nav, f).selected;
            let cur: int = match before {
                Some(c) => c as int,
                None => 0,
            };
            let page = page_size_spec(col_pane(v.panes, f).height) as int;
            let half = half_page_spec(col_pane(v.panes, f).height) as int;
            let n2 = step(v, idx, msg).0.nav;
            let after = col_state(n2, f).selected;
            &&& n2.focus == f
            &&& col_rows(n2, f) == col_rows(v.nav, f)
            &&& after matches Some(s) && s < len
            &&& msg is MoveDown ==> after == Some((if cur + 1 < len - 1 { cur + 1 } else { len - 1 }) as usize)
            &&& msg is MoveUp ==> after == Some((if cur - 1 < 0 { 0 } else { cur - 1 }) as usize)
            &&& msg is MoveToTop ==> after == Some(0usize)
            &&& msg is MoveToBottom ==> after == Some((len - 1) as usize)
            &&& msg is PageDown ==> after == moved_selection(before, len, page)
            &&& msg is PageUp ==> after == moved_selection(before, len, -page)
            &&& msg is HalfPageDown ==> after == moved_selection(before, len, half)
            &&& msg is HalfPageUp ==> after == moved_selection(before, len, -half)
        }),
{
    let n = v.nav;
    let f = n.focus;
    let page = page_size_spec(col_pane(v.panes, f).height) as int;
    let half = half_page_spec(col_pane(v.panes, f).height) as int;
    lemma_step_of_move(v, idx, msg);
    let pre = match msg {
        Message::MoveUp => moved(n, -1),
        Message::MoveDown => moved(n, 1),
        Message::MoveToTop => to_top(n),
        Message::MoveToBottom => to_bottom(n),
        Message::PageDown => moved(n, page),
        Message::PageUp => moved(n, -page),
        Message::HalfPageDown => moved(n, half),
        _ => moved(n, -half),
    };
    match msg {
        Message::MoveUp => lemma_moved_column(n, -1),
        Message::MoveDown => lemma_moved_column(n, 1),
        Message::MoveToTop => {},
        Message::MoveToBottom => {},
        Message::PageDown => lemma_moved_column(n, page),
        Message::PageUp => lemma_moved_column(n, -page),
        Message::HalfPageDown => lemma_moved_column(n, half),
        _ => lemma_moved_column(n, -half),
    }
    lemma_selection_moved_keeps_column(pre, v.panes, idx, v.albums);
}

/// A download request asks for what the focused column selects (the
/// artist's albums, the album, or the album of the track) and changes
/// nothing else; a request for everything asks for every album.
pub proof fn law_download_follows_focus(v: AppView, idx: ArtistIndex)
    ensures
        step(v, idx, Message::Download).0 == v,
        step(v, idx, Message::Download).1 == seq![Effect::Download(v.nav.focus)],
        step(v, idx, Message::DownloadAll).0 == v,
        step(v, idx, Message::DownloadAll).1 == seq![Effect::DownloadAll],
{
}

/// The player's commands: quitting stops the loop and saves the session;
/// pause, seeking by ten seconds either way, refreshing, copying the link
/// and opening the login page are asked of the program and change nothing
/// here; the info view is shown or hidden in turn.
pub proof fn law_commands_ask_for_their_effects(v: AppView, idx: ArtistIndex)
    ensures
        step(v, idx, Message::Quit).0 == (AppView { should_quit: true, ..v }),
        step(v, idx, Message::Quit).1 == seq![Effect::PersistState],
        step(v, idx, Message::TogglePause) == (v, seq![Effect::TogglePause]),
        step(v, idx, Message::SeekBackward) == (v, seq![Effect::Seek(-10i64)]),
        step(v, idx, Message::SeekForward) == (v, seq![Effect::Seek(10i64)]),
        step(v, idx, Message::Refresh) == (v, seq![Effect::Refresh]),
        step(v, idx, Message::Yank) == (v, seq![Effect::Yank]),
        step(v, idx, Message::OpenLogin) == (v, seq![Effect::OpenLogin]),
        step(v, idx, Message::ToggleSettings).0.show_settings == !v.show_settings,
        step(step(v, idx, Message::ToggleSettings).0, idx, Message::ToggleSettings).0 == v,
{
}

/// An album download finished: the album is complete and the status names
/// it; the library is saved.
pub open spec fn album_done(v: AppView, item_id: u64) -> (AppView, Seq<Effect>) {
    if v.library.contains_key(item_id) {
        let a = v.library[item_id];
        (
            AppView {
                library: v.library.insert(item_id, DownloadedAlbumView { status: AlbumDownloadStatus::Complete, ..a }),
                status: "Downloaded: "@ + a.artist_name + " - "@ + a.album_title,
                dirty: true,
                ..v
            },
            seq![Effect::SaveLibrary],
        )
    } else {
        (AppView { dirty: true, ..v }, seq![Effect::SaveLibrary])
    }
}

/// What a message that moves the focus does.
pub open spec fn step_focus(v: AppView, idx: ArtistIndex, msg: Message) -> (AppView, Seq<Effect>) {
    let n = v.nav;
    let albums = v.albums;
    let page = page_size_spec(col_pane(v.panes, n.focus).height) as int;
    let half = half_page_spec(col_pane(v.panes, n.focus).height) as int;
    match msg {
        Message::FocusLeft => (AppView { nav: focus_left(n, idx, albums), ..v }, seq![]),
        Message::FocusRight => (AppView { nav: focus_right(n, idx, albums), ..v }, focus_right_effects(n, albums)),
        Message::FocusColumn(col) => if n.focus != col {
            (AppView { nav: focus_to(n, col, idx, albums), ..v }, focus_to_effects(n, col, albums))
        } else {
            (v, seq![])
        },
        Message::Enter => enter_step(v, idx),
        _ => (v, seq![]),
    }
}

/// What a message that moves a selection does.
pub open spec fn step_move(v: AppView, idx: ArtistIndex, msg: Message) -> (AppView, Seq<Effect>) {
    let n = v.nav;
    let albums = v.albums;
    let page = page_size_spec(col_pane(v.panes, n.focus).height) as int;
    let half = half_page_spec(col_pane(v.panes, n.focus).height) as int;
    match msg {
        Message::SelectAt(col, i) => (AppView { nav: select_at(n, v.panes, col, i, idx, albums), ..v }, seq![]),
        Message::ScrollColumn(col, d) => (AppView { nav: scrolled(n, v.panes, col, d as int), ..v }, seq![]),
        Message::MoveUp => (AppView { nav: selection_moved(moved(n, -1), v.panes, idx, albums), ..v }, seq![]),
        Message::MoveDown => (AppView { nav: selection_moved(moved(n, 1), v.panes, idx, albums), ..v }, seq![]),
        Message::MoveToTop => (AppView { nav: selection_moved(to_top(n), v.panes, idx, albums), ..v }, seq![]),
        Message::MoveToBottom => (AppView { nav: selection_moved(to_bottom(n), v.panes, idx, albums), ..v }, seq![]),
        Message::PageDown => (AppView { nav: selection_moved(moved(n, page), v.panes, idx, albums), ..v }, seq![]),
        Message::PageUp => (AppView { nav: selection_moved(moved(n, -page), v.panes, idx, albums), ..v }, seq![]),
        Message::HalfPageDown => (AppView { nav: selection_moved(moved(n, half), v.panes, idx, albums), ..v }, seq![]),
        Message::HalfPageUp => (AppView { nav: selection_moved(moved(n, -half), v.panes, idx, albums), ..v }, seq![]),
        _ => (v, seq![]),
    }
}

/// What a navigation message does.
pub open spec fn step_nav(v: AppView, idx: ArtistIndex, msg: Message) -> (AppView, Seq<Effect>) {
    if is_focus_message(msg) {
        step_focus(v, idx, msg)
    } else {
        step_move(v, idx, msg)
    }
}

/// The messages that move the focus.
pub open spec fn is_focus_message(msg: Message) -> bool {
    ||| msg is FocusLeft
    ||| msg is FocusRight
    ||| msg is FocusColumn
    ||| msg is Enter
}

/// What a search, view or command message does.
pub open spec fn step_ui(v: AppView, idx: ArtistIndex, msg: Message) -> (AppView, Seq<Effect>) {
    let n = v.nav;
    let albums = v.albums;
    match msg {
        Message::Quit => (AppView { should_quit: true, ..v }, seq![Effect::PersistState]),
        Message::TogglePause => (v, seq![Effect::TogglePause]),
        Message::SeekBackward => (v, seq![Effect::Seek(-10i64)]),
        Message::SeekForward => (v, seq![Effect::Seek(10i64)]),
        Message::ScrollMetaDown => (AppView { meta_scroll: (v.meta_scroll + 1) as usize, ..v }, seq![]),
        Message::ScrollMetaUp => (
            AppView { meta_scroll: if v.meta_scroll > 0 { (v.meta_scroll - 1) as usize } else { 0 }, ..v },
            seq![],
        ),
        Message::StartFilter => (
            AppView { nav: active_filter_changed(NavView { filter_mode: true, filter: seq![], ..n }, idx, albums), ..v },
            seq![],
        ),
        Message::FilterChar(c) => (AppView { nav: filter_typed(n, c, idx, albums), ..v }, seq![]),
        Message::FilterBackspace => (
            AppView { nav: active_filter_changed(NavView { filter: backspaced(n.filter), ..n }, idx, albums), ..v },
            seq![],
        ),
        Message::CancelFilter => (
            AppView { nav: active_filter_changed(NavView { filter_mode: false, filter: seq![], ..n }, idx, albums), ..v },
            seq![],
        ),
        Message::ConfirmFilter => (AppView { nav: NavView { filter_mode: false, ..n }, ..v }, seq![]),
        Message::Download => (v, seq![Effect::Download(n.focus)]),
        Message::DownloadAll => (v, seq![Effect::DownloadAll]),
        Message::ToggleSettings => (AppView { show_settings: !v.show_settings, ..v }, seq![]),
        Message::ScrollSettings(d) => (AppView { settings_scroll: scrolled16(v.settings_scroll, d as int), ..v }, seq![]),
        Message::Refresh => (v, seq![Effect::Refresh]),
        Message::Yank => (v, seq![Effect::Yank]),
        Message::OpenLogin => (v, seq![Effect::OpenLogin]),
        Message::ExtractCookie => (
            AppView { login_step: LoginStep::Extracting, status: "Extracting cookie from browser..."@, ..v },
            seq![Effect::ExtractCookie],
        ),
        _ => (v, seq![]),
    }
}

/// What a playback or background-task message does.
pub open spec fn step_task(v: AppView, idx: ArtistIndex, msg: Message) -> (AppView, Seq<Effect>) {
    let n = v.nav;
    let albums = v.albums;
    match msg {
        Message::NextTrack => next_step(v),
        Message::TrackFinished => next_step(v),
        Message::PrevTrack => prev_step(v),
        Message::AlbumDetailLoaded { idx: i, detail } => detail_loaded(v, i, detail),
        Message::AlbumDetailFailed(e) => (
            AppView { status: "Failed to load album: "@ + e@, loading_tracks: false, dirty: true, ..v },
            seq![],
        ),
        Message::PrefetchResult { idx: i, detail } => prefetched(v, i, detail),
        Message::PrefetchDone => (AppView { status: seq![], dirty: true, ..v }, seq![Effect::SaveCollectionCache]),
        Message::Mp3Failed(e) => (AppView { status: "Stream error: "@ + e@, dirty: true, ..v }, seq![]),
        Message::PlaybackError(e) => (AppView { status: "Playback error: "@ + e@, dirty: true, ..v }, seq![]),
        Message::DownloadTrackDone { item_id, track_num } => (
            AppView { library: track_marked(v.library, item_id, track_num), dirty: true, ..v },
            seq![],
        ),
        Message::DownloadAlbumDone { item_id } => album_done(v, item_id),
        Message::DownloadError { item_id, msg } => (
            AppView { status: "Download error ("@ + decimal(item_id as nat) + "): "@ + msg@, dirty: true, ..v },
            seq![],
        ),
        _ => (v, seq![]),
    }
}

/// What a message does: the next state and the effects, in order.
pub open spec fn step(v: AppView, idx: ArtistIndex, msg: Message) -> (AppView, Seq<Effect>) {
    if is_nav_message(msg) {
        step_nav(v, idx, msg)
    } else if is_task_message(msg) {
        step_task(v, idx, msg)
    } else {
        step_ui(v, idx, msg)
    }
}

/// The messages that move the focus or a selection.
pub open spec fn is_nav_message(msg: Message) -> bool {
    ||| msg is FocusLeft
    ||| msg is FocusRight
    ||| msg is FocusColumn
    ||| msg is SelectAt
    ||| msg is ScrollColumn
    ||| msg is MoveUp
    ||| msg is MoveDown
    ||| msg is MoveToTop
    ||| msg is MoveToBottom
    ||| msg is PageDown
    ||| msg is PageUp
    ||| msg is HalfPageDown
    ||| msg is HalfPageUp
    ||| msg is Enter
}

/// The messages of playback and of the background tasks.
pub open spec fn is_task_message(msg: Message) -> bool {
    ||| msg is NextTrack
    ||| msg is TrackFinished
    ||| msg is PrevTrack
    ||| msg is AlbumDetailLoaded
    ||| msg is AlbumDetailFailed
    ||| msg is PrefetchResult
    ||| msg is PrefetchDone
    ||| msg is Mp3Failed
    ||| msg is PlaybackError
    ||| msg is DownloadTrackDone
    ||| msg is DownloadAlbumDone
    ||| msg is DownloadError
}

/// A scroll position moved by `delta` rows, kept within `0..=u16::MAX`.
pub open spec fn scrolled16(pos: u16, delta: int) -> u16 {
    let n = pos + delta;
    if n < 0 {
        0
    } else if n > u16::MAX {
        u16::MAX
    } else {
        n as u16
    }
}

/// Moves a scroll position by `delta` rows.
fn scroll16(pos: u16, delta: isize) -> (r: u16)
    ensures
        r == scrolled16(pos, delta as int),
{
    if delta < 0 {
        if delta < -(pos as isize) {
            0
        } else {
            (pos as isize + delta) as u16
        }
    } else if delta > (u16::MAX - pos) as isize {
        u16::MAX
    } else {
        (pos as isize + delta) as u16
    }
}

/// Whether a message can be handled in a state: the album positions that
/// task results name lie in the collection, and the counters have room.
pub open spec fn accepts(v: AppView, msg: Message) -> bool {
    match msg {
        Message::ScrollMetaDown => v.meta_scroll < usize::MAX,
        Message::AlbumDetailLoaded { idx, .. } => idx < v.albums.len(),
        Message::PrefetchResult { idx, .. } => idx < v.albums.len() && v.prefetch_done < usize::MAX,
        _ => true,
    }
}

impl App {
    /// Whether `update` takes a message in this state.
    pub fn accepts_message(&self, msg: &Message) -> (r: bool)
        ensures
            r == accepts(self@, *msg),
    {
        match msg {
            Message::ScrollMetaDown => self.meta_scroll < usize::MAX,
            Message::AlbumDetailLoaded { idx, .. } => *idx < self.albums.len(),
            Message::PrefetchResult { idx, .. } => *idx < self.albums.len() && self.prefetch_done < usize::MAX,
            _ => true,
        }
    }
}

impl App {
    /// Moves the focus one column to the left.
    fn focus_left(&mut self)
        ensures
            final(self)@ == (AppView { nav: focus_left(old(self)@.nav, old(self).artist_index, old(self)@.albums), ..old(self)@ }),
            final(self).artist_index == old(self).artist_index,
    {
        self.clear_filter();
        match self.nav.focus {
            Column::Tracks => {
                self.nav.focus = Column::Albums;
                self.recompute_active_filter();
            },
            Column::Albums => {
                self.nav.focus = Column::Artists;
                self.recompute_active_filter();
            },
            Column::Artists => {},
        }
    }

    /// Moves the focus one column to the right.
    fn focus_right(&mut self) -> (effects: Vec<Effect>)
        ensures
            final(self)@ == (AppView { nav: focus_right(old(self)@.nav, old(self).artist_index, old(self)@.albums), ..old(self)@ }),
            final(self).artist_index == old(self).artist_index,
            effects@ == focus_right_effects(old(self)@.nav, old(self)@.albums),
    {
        match self.nav.focus {
            Column::Artists => self.focus_to(Column::Albums),
            Column::Albums => self.focus_to(Column::Tracks),
            Column::Tracks => {
                self.clear_filter();
                Vec::new()
            },
        }
    }

    /// Scrolls a column.
    fn scroll_column(&mut self, col: Column, delta: isize)
        ensures
            final(self)@ == (AppView { nav: scrolled(old(self)@.nav, old(self).panes, col, delta as int), ..old(self)@ }),
            final(self).artist_index == old(self).artist_index,
    {
        let len = self.len_of(col);
        let rect = self.pane_of(col);
        if len == 0 || rect.height < 3 {
            return;
        }
        let s = self.state_of(col);
        let off = scroll_offset(len, rect.height, s.offset, delta as i64);
        self.set_state(col, ListSel { offset: off, ..s });
    }

    /// Selects row `i` of a column.
    fn select_at(&mut self, col: Column, i: usize)
        ensures
            final(self)@ == (AppView {
                nav: select_at(old(self)@.nav, old(self).panes, col, i, old(self).artist_index, old(self)@.albums),
                ..old(self)@
            }),
            final(self).artist_index == old(self).artist_index,
    {
        if i < self.len_of(col) {
            let mut s = self.state_of(col);
            s.select(Some(i));
            self.set_state(col, s);
            let prev_focus = self.nav.focus;
            self.nav.focus = col;
            if prev_focus != col {
                self.recompute_active_filter();
            }
            self.on_selection_moved();
        }
    }

    /// Selects the first row of the focused column.
    fn move_to_top(&mut self)
        ensures
            final(self)@ == (AppView { nav: to_top(old(self)@.nav), ..old(self)@ }),
            final(self).artist_index == old(self).artist_index,
    {
        let f = self.nav.focus;
        let mut s = self.state_of(f);
        s.select(Some(0));
        self.set_state(f, s);
    }

    /// Selects the last row of the focused column.
    fn move_to_bottom(&mut self)
        ensures
            final(self)@ == (AppView { nav: to_bottom(old(self)@.nav), ..old(self)@ }),
            final(self).artist_index == old(self).artist_index,
    {
        let f = self.nav.focus;
        let len = self.len_of(f);
        if len > 0 {
            let mut s = self.state_of(f);
            s.select(Some(len - 1));
            self.set_state(f, s);
        }
    }

    /// Moves the selection by `delta` rows and lets the view follow.
    fn move_and_follow(&mut self, delta: i64)
        requires
            delta > i64::MIN,
        ensures
            final(self)@ == (AppView {
                nav: selection_moved(moved(old(self)@.nav, delta as int), old(self).panes, old(self).artist_index, old(self)@.albums),
                ..old(self)@
            }),
            final(self).artist_index == old(self).artist_index,
    {
        self.move_selection(delta);
        self.on_selection_moved();
    }

    /// Plays the selected track: the queue becomes the selected album's
    /// tracks, from that track on.
    fn play_selected_track(&mut self) -> (effects: Vec<Effect>)
        ensures
            ({
                let v = old(self)@;
                match selected_track(v) {
                    Some((a, t)) => final(self)@ == (AppView {
                        queue_items: album_queue(v.albums[a as int]),
                        queue_current: crate::queue::start_position(v.albums[a as int].tracks@.len(), t as nat),
                        ..v
                    }) && effects@ == seq![Effect::StartPlayback],
                    None => final(self)@ == v && effects@ == Seq::<Effect>::empty(),
                }
            }),
            final(self).artist_index == old(self).artist_index,
            old(self).queue.wf() ==> final(self).queue.wf(),
    {
        let mut effects: Vec<Effect> = Vec::new();
        let a = match self.nav.selected_album_idx {
            Some(a) => a,
            None => {
                assert(self@ =~= old(self)@);
                return effects;
            },
        };
        let s = match self.nav.track_state.selected {
            Some(s) => s,
            None => {
                assert(self@ =~= old(self)@);
                return effects;
            },
        };
        if s >= self.nav.track_filtered.len() || a >= self.albums.len() {
            assert(self@ =~= old(self)@);
            return effects;
        }
        let t = self.nav.track_filtered[s];
        let items = album_items(&self.albums[a]);
        self.queue.replace_all(items, t);
        effects.push(Effect::StartPlayback);
        assert(self@ =~= (AppView {
            queue_items: album_queue(old(self)@.albums[a as int]),
            queue_current: crate::queue::start_position(old(self)@.albums[a as int].tracks@.len(), t as nat),
            ..old(self)@
        }));
        assert(effects@ =~= seq![Effect::StartPlayback]);
        effects
    }
}

/// The queue entries of an album's tracks.
fn album_items(al: &Album) -> (r: Vec<QueueItem>)
    ensures
        r@ == album_queue(*al),
{
    let mut v: Vec<QueueItem> = Vec::new();
    let mut i: usize = 0;
    while i < al.tracks.len()
        invariant
            i <= al.tracks@.len(),
            v@ =~= album_queue(*al).take(i as int),
        decreases al.tracks@.len() - i,
    {
        let item = QueueItem {
            track: al.tracks[i].clone(),
            item_id: al.item_id,
            album_title: al.album_title.clone(),
            artist_name: al.artist_name.clone(),
            art_url: crate::models::copy_opt_string(&al.art_url),
            about: crate::models::copy_opt_string(&al.about),
            credits: crate::models::copy_opt_string(&al.credits),
            release_date: crate::models::copy_opt_string(&al.release_date),
        };
        v.push(item);
        i += 1;
    }
    assert(album_queue(*al).take(i as int) =~= album_queue(*al));
    v
}

impl App {
    /// Opens the selected artist or album, or plays the selected track.
    fn enter(&mut self) -> (effects: Vec<Effect>)
        ensures
            (final(self)@, effects@) == enter_step(old(self)@, old(self).artist_index),
            final(self).artist_index == old(self).artist_index,
            old(self).queue.wf() ==> final(self).queue.wf(),
    {
        match self.nav.focus {
            Column::Artists => {
                if self.nav.album_filtered.len() > 0 {
                    self.clear_filter();
                    self.nav.focus = Column::Albums;
                    self.recompute_active_filter();
                }
                let e: Vec<Effect> = Vec::new();
                assert(e@ =~= seq![]);
                e
            },
            Column::Albums => match self.nav.selected_album_idx {
                Some(a) => {
                    let effects = self.prepare_tracks(a);
                    self.clear_filter();
                    self.nav.focus = Column::Tracks;
                    self.recompute_active_filter();
                    self.status_msg = String::new();
                    assert(self@ =~= enter_step(old(self)@, old(self).artist_index).0);
                    effects
                },
                None => {
                    let e: Vec<Effect> = Vec::new();
                    assert(e@ =~= seq![]);
                    e
                },
            },
            Column::Tracks => self.play_selected_track(),
        }
    }

    /// Plays the next track of the queue.
    fn play_next(&mut self) -> (effects: Vec<Effect>)
        requires
            old(self).queue.wf(),
        ensures
            (final(self)@, effects@) == next_step(old(self)@),
            final(self).artist_index == old(self).artist_index,
            final(self).queue.wf(),
    {
        let moved = self.queue.next().is_some();
        let mut effects: Vec<Effect> = Vec::new();
        if moved {
            effects.push(Effect::StartPlayback);
            let cur = self.queue.current;
            self.nav.track_state.select(cur);
            assert(self@ =~= next_step(old(self)@).0);
        } else {
            self.status_msg = text("End of queue");
            effects.push(Effect::PlaybackEnded);
            assert(self@ =~= next_step(old(self)@).0);
        }
        assert(effects@ =~= next_step(old(self)@).1);
        effects
    }

    /// Plays the previous track of the queue.
    fn play_prev(&mut self) -> (effects: Vec<Effect>)
        requires
            old(self).queue.wf(),
        ensures
            (final(self)@, effects@) == prev_step(old(self)@),
            final(self).artist_index == old(self).artist_index,
            final(self).queue.wf(),
    {
        let moved = self.queue.prev().is_some();
        let mut effects: Vec<Effect> = Vec::new();
        if moved {
            effects.push(Effect::StartPlayback);
            let cur = self.queue.current;
            self.nav.track_state.select(cur);
        }
        assert(self@ =~= prev_step(old(self)@).0);
        assert(effects@ =~= prev_step(old(self)@).1);
        effects
    }

    /// Starts a search in the focused column.
    fn start_filter(&mut self)
        ensures
            final(self)@ == (AppView {
                nav: active_filter_changed(
                    NavView { filter_mode: true, filter: seq![], ..old(self)@.nav },
                    old(self).artist_index,
                    old(self)@.albums,
                ),
                ..old(self)@
            }),
            final(self).artist_index == old(self).artist_index,
    {
        self.nav.filter_mode = true;
        self.clear_filter();
        self.recompute_active_filter();
    }

    /// Types a character into the search.
    fn filter_char(&mut self, c: char)
        ensures
            final(self)@ == (AppView { nav: filter_typed(old(self)@.nav, c, old(self).artist_index, old(self)@.albums), ..old(self)@ }),
            final(self).artist_index == old(self).artist_index,
    {
        let mut v = chars_of(self.nav.filter_text.as_str());
        v.push(c);
        self.nav.filter_text = string_of(v.as_slice());
        self.recompute_active_filter();
        let f = self.nav.focus;
        let mut s = self.state_of(f);
        s.select(Some(0));
        self.set_state(f, s);
    }

    /// Removes the last character of the search.
    fn filter_backspace(&mut self)
        ensures
            final(self)@ == (AppView {
                nav: active_filter_changed(
                    NavView { filter: backspaced(old(self)@.nav.filter), ..old(self)@.nav },
                    old(self).artist_index,
                    old(self)@.albums,
                ),
                ..old(self)@
            }),
            final(self).artist_index == old(self).artist_index,
    {
        let mut v = chars_of(self.nav.filter_text.as_str());
        if v.len() > 0 {
            v.pop();
        }
        self.nav.filter_text = string_of(v.as_slice());
        self.recompute_active_filter();
    }

    /// Ends the search and drops its text.
    fn cancel_filter(&mut self)
        ensures
            final(self)@ == (AppView {
                nav: active_filter_changed(
                    NavView { filter_mode: false, filter: seq![], ..old(self)@.nav },
                    old(self).artist_index,
                    old(self)@.albums,
                ),
                ..old(self)@
            }),
            final(self).artist_index == old(self).artist_index,
    {
        self.nav.filter_mode = false;
        self.clear_filter();
        self.recompute_active_filter();
    }

    /// Gives an album the tracks and texts of its page.
    fn apply_detail(&mut self, i: usize, d: AlbumDetail)
        requires
            i < old(self).albums@.len(),
        ensures
            final(self)@ == (AppView {
                albums: old(self)@.albums.update(i as int, with_detail(old(self)@.albums[i as int], d)),
                ..old(self)@
            }),
            final(self).artist_index == old(self).artist_index,
            final(self).queue == old(self).queue,
    {
        let AlbumDetail { tracks, about, credits, release_date } = d;
        self.albums[i].tracks = tracks;
        self.albums[i].about = about;
        self.albums[i].credits = credits;
        self.albums[i].release_date = release_date;
        assert(self@ =~= (AppView {
            albums: old(self)@.albums.update(i as int, with_detail(old(self)@.albums[i as int], d)),
            ..old(self)@
        }));
    }

    /// The tracks of the album being opened arrived.
    fn detail_loaded(&mut self, i: usize, d: AlbumDetail) -> (effects: Vec<Effect>)
        requires
            i < old(self).albums@.len(),
        ensures
            (final(self)@, effects@) == detail_loaded(old(self)@, i, d),
            final(self).artist_index == old(self).artist_index,
            final(self).queue == old(self).queue,
    {
        self.apply_detail(i, d);
        let mut effects: Vec<Effect> = Vec::new();
        effects.push(Effect::SaveAlbumMetadata(i));
        self.nav.recompute_track_filter(&self.albums);
        if self.nav.track_filtered.len() > 0 && self.nav.track_state.selected.is_none() {
            self.nav.track_state.select(Some(0));
        }
        self.status_msg = String::new();
        self.loading_tracks = false;
        self.dirty = true;
        assert(self@ =~= detail_loaded(old(self)@, i, d).0);
        assert(effects@ =~= detail_loaded(old(self)@, i, d).1);
        effects
    }

    /// An album fetched in the background arrived.
    fn prefetched(&mut self, i: usize, d: AlbumDetail) -> (effects: Vec<Effect>)
        requires
            i < old(self).albums@.len(),
            old(self).prefetch_done < usize::MAX,
        ensures
            (final(self)@, effects@) == prefetched(old(self)@, i, d),
            final(self).artist_index == old(self).artist_index,
            final(self).queue == old(self).queue,
    {
        self.apply_detail(i, d);
        let mut effects: Vec<Effect> = Vec::new();
        effects.push(Effect::SaveAlbumMetadata(i));
        let item_id = self.albums[i].item_id;
        self.library.sync_durations(item_id, &self.albums[i].tracks);
        self.prefetch_done = self.prefetch_done + 1;
        self.status_msg = syncing_status(self.prefetch_done, self.prefetch_total);
        effects.push(Effect::SaveLibrary);
        self.nav.recompute_track_filter(&self.albums);
        self.dirty = true;
        assert(self@ =~= prefetched(old(self)@, i, d).0);
        assert(effects@ =~= prefetched(old(self)@, i, d).1);
        effects
    }

    /// A track download finished.
    fn track_downloaded(&mut self, item_id: u64, track_num: u32)
        ensures
            final(self)@ == (AppView { library: track_marked(old(self)@.library, item_id, track_num), dirty: true, ..old(self)@ }),
            final(self).artist_index == old(self).artist_index,
            final(self).queue == old(self).queue,
    {
        self.library.mark_track_downloaded(item_id, track_num);
        self.dirty = true;
        proof {
            let om = old(self).library.albums@;
            let nm = self.library.albums@;
            if om.contains_key(item_id) {
                if let Some(i) = first_track(om[item_id].tracks@, track_num) {
                    assert(library_view(nm) =~= track_marked(library_view(om), item_id, track_num)) by {
                        assert(nm.dom() == om.dom());
                        assert(nm[item_id]@ == DownloadedAlbumView {
                            tracks: om[item_id].tracks@.update(i, DownloadedTrack { downloaded: true, ..om[item_id].tracks@[i] }),
                            ..om[item_id]@
                        });
                    }
                }
            }
        }
        assert(self@ =~= (AppView { library: track_marked(old(self)@.library, item_id, track_num), dirty: true, ..old(self)@ }));
    }

    /// An album download finished.
    fn album_downloaded(&mut self, item_id: u64) -> (effects: Vec<Effect>)
        ensures
            (final(self)@, effects@) == album_done(old(self)@, item_id),
            final(self).artist_index == old(self).artist_index,
            final(self).queue == old(self).queue,
    {
        match self.library.mark_album_complete(item_id) {
            Some((artist, title)) => {
                let s1 = concat("Downloaded: ", artist.as_str());
                let s2 = concat(s1.as_str(), " - ");
                self.status_msg = concat(s2.as_str(), title.as_str());
                proof {
                    assert(library_view(self.library.albums@) =~= library_view(old(self).library.albums@).insert(
                        item_id,
                        DownloadedAlbumView { status: AlbumDownloadStatus::Complete, ..library_view(old(self).library.albums@)[item_id] },
                    ));
                }
            },
            None => {},
        }
        self.dirty = true;
        let mut effects: Vec<Effect> = Vec::new();
        effects.push(Effect::SaveLibrary);
        assert(self@ =~= album_done(old(self)@, item_id).0);
        assert(effects@ =~= album_done(old(self)@, item_id).1);
        effects
    }
}

/// The status while album metadata is fetched in the background.
fn syncing_status(done: usize, total: usize) -> (r: String)
    ensures
        r@ == syncing_text(done as nat, total as nat),
{
    let mut v = chars_of("syncing album metadata (");
    let d = decimal_chars(done as u64);
    v.extend_from_slice(d.as_slice());
    v.push('/');
    let t = decimal_chars(total as u64);
    v.extend_from_slice(t.as_slice());
    let tail = chars_of(")...");
    v.extend_from_slice(tail.as_slice());
    proof {
        reveal_strlit("/");
    }
    assert(v@ =~= syncing_text(done as nat, total as nat));
    string_of(v.as_slice())
}

impl App {
    /// Handles a message that moves the focus.
    #[verifier::spinoff_prover]
    fn update_focus(&mut self, msg: Message) -> (effects: Vec<Effect>)
        requires
            old(self).queue.wf(),
            accepts(old(self)@, msg),
        ensures
            final(self)@ == step_focus(old(self)@, old(self).artist_index, msg).0,
            effects@ == step_focus(old(self)@, old(self).artist_index, msg).1,
            final(self).artist_index == old(self).artist_index,
            final(self).queue.wf(),
    {
        let ghost v = self@;
        let ghost idx = self.artist_index;
        let ghost m = msg;
        let mut effects: Vec<Effect> = Vec::new();
        match msg {
            Message::FocusLeft => self.focus_left(),
            Message::FocusRight => {
                effects = self.focus_right();
            },
            Message::FocusColumn(col) => {
                if self.nav.focus != col {
                    effects = self.focus_to(col);
                }
            },
            Message::Enter => {
                effects = self.enter();
            },
            _ => {},
        }
        assert(self@ =~= step_focus(v, idx, m).0);
        assert(effects@ =~= step_focus(v, idx, m).1);
        effects
    }

    /// Handles a message that moves a selection.
    #[verifier::spinoff_prover]
    #[verifier::rlimit(40)]
    fn update_move(&mut self, msg: Message) -> (effects: Vec<Effect>)
        requires
            old(self).queue.wf(),
            accepts(old(self)@, msg),
        ensures
            final(self)@ == step_move(old(self)@, old(self).artist_index, msg).0,
            effects@ == step_move(old(self)@, old(self).artist_index, msg).1,
            final(self).artist_index == old(self).artist_index,
            final(self).queue.wf(),
    {
        let ghost v = self@;
        let ghost idx = self.artist_index;
        let ghost m = msg;
        let effects: Vec<Effect> = Vec::new();
        assert(effects@ =~= seq![]);
        match msg {
            Message::SelectAt(col, i) => {
                self.select_at(col, i);
                assert(self@ =~= step_move(v, idx, m).0);
            },
            Message::ScrollColumn(col, d) => {
                self.scroll_column(col, d);
                assert(self@ =~= step_move(v, idx, m).0);
            },
            Message::MoveUp => {
                self.move_and_follow(-1);
                assert(self@ =~= step_move(v, idx, m).0);
            },
            Message::MoveDown => {
                self.move_and_follow(1);
                assert(self@ =~= step_move(v, idx, m).0);
            },
            Message::MoveToTop => {
                self.move_to_top();
                self.on_selection_moved();
                assert(self@ =~= step_move(v, idx, m).0);
            },
            Message::MoveToBottom => {
                self.move_to_bottom();
                self.on_selection_moved();
                assert(self@ =~= step_move(v, idx, m).0);
            },
            Message::PageDown => {
                let p = page_size(self.pane_of(self.nav.focus).height);
                self.move_and_follow(p as i64);
                assert(self@ =~= step_move(v, idx, m).0);
            },
            Message::PageUp => {
                let p = page_size(self.pane_of(self.nav.focus).height);
                self.move_and_follow(-(p as i64));
                assert(self@ =~= step_move(v, idx, m).0);
            },
            Message::HalfPageDown => {
                let p = half_page(self.pane_of(self.nav.focus).height);
                self.move_and_follow(p as i64);
                assert(self@ =~= step_move(v, idx, m).0);
            },
            Message::HalfPageUp => {
                let p = half_page(self.pane_of(self.nav.focus).height);
                self.move_and_follow(-(p as i64));
                assert(self@ =~= step_move(v, idx, m).0);
            },
            _ => {
                assert(self@ =~= step_move(v, idx, m).0);
            },
        }
        effects
    }

    /// Handles a navigation message.
    fn update_nav(&mut self, msg: Message) -> (effects: Vec<Effect>)
        requires
            old(self).queue.wf(),
            accepts(old(self)@, msg),
        ensures
            final(self)@ == step_nav(old(self)@, old(self).artist_index, msg).0,
            effects@ == step_nav(old(self)@, old(self).artist_index, msg).1,
            final(self).artist_index == old(self).artist_index,
            final(self).queue.wf(),
    {
        let is_focus = match &msg {
            Message::FocusLeft | Message::FocusRight | Message::FocusColumn(_) | Message::Enter => true,
            _ => false,
        };
        if is_focus {
            self.update_focus(msg)
        } else {
            self.update_move(msg)
        }
    }

    /// Handles a search, view or command message.
    #[verifier::spinoff_prover]
    fn update_ui(&mut self, msg: Message) -> (effects: Vec<Effect>)
        requires
            old(self).queue.wf(),
            accepts(old(self)@, msg),
        ensures
            final(self)@ == step_ui(old(self)@, old(self).artist_index, msg).0,
            effects@ == step_ui(old(self)@, old(self).artist_index, msg).1,
            final(self).artist_index == old(self).artist_index,
            final(self).queue.wf(),
    {
        let ghost v = self@;
        let ghost idx = self.artist_index;
        let ghost m = msg;
        let mut effects: Vec<Effect> = Vec::new();
        match msg {
            Message::Quit => {
                effects.push(Effect::PersistState);
                self.should_quit = true;
            },
            Message::TogglePause => effects.push(Effect::TogglePause),
            Message::SeekBackward => effects.push(Effect::Seek(-10)),
            Message::SeekForward => effects.push(Effect::Seek(10)),
            Message::ScrollMetaDown => {
                self.meta_scroll = self.meta_scroll + 1;
            },
            Message::ScrollMetaUp => {
                self.meta_scroll = if self.meta_scroll > 0 { self.meta_scroll - 1 } else { 0 };
            },
            Message::StartFilter => self.start_filter(),
            Message::FilterChar(c) => self.filter_char(c),
            Message::FilterBackspace => self.filter_backspace(),
            Message::CancelFilter => self.cancel_filter(),
            Message::ConfirmFilter => {
                self.nav.filter_mode = false;
            },
            Message::Download => effects.push(Effect::Download(self.nav.focus)),
            Message::DownloadAll => effects.push(Effect::DownloadAll),
            Message::ToggleSettings => {
                self.show_settings = !self.show_settings;
            },
            Message::ScrollSettings(d) => {
                self.settings_scroll = scroll16(self.settings_scroll, d);
            },
            Message::Refresh => effects.push(Effect::Refresh),
            Message::Yank => effects.push(Effect::Yank),
            Message::OpenLogin => effects.push(Effect::OpenLogin),
            Message::ExtractCookie => {
                self.login_step = LoginStep::Extracting;
                self.status_msg = text("Extracting cookie from browser...");
                effects.push(Effect::ExtractCookie);
            },
            _ => {},
        }
        assert(self@ =~= step_ui(v, idx, m).0);
        assert(effects@ =~= step_ui(v, idx, m).1);
        effects
    }

    /// Handles a playback or background-task message.
    #[verifier::spinoff_prover]
    fn update_task(&mut self, msg: Message) -> (effects: Vec<Effect>)
        requires
            old(self).queue.wf(),
            accepts(old(self)@, msg),
        ensures
            final(self)@ == step_task(old(self)@, old(self).artist_index, msg).0,
            effects@ == step_task(old(self)@, old(self).artist_index, msg).1,
            final(self).artist_index == old(self).artist_index,
            final(self).queue.wf(),
    {
        let ghost v = self@;
        let ghost idx = self.artist_index;
        let ghost m = msg;
        let mut effects: Vec<Effect> = Vec::new();
        match msg {
            Message::NextTrack => {
                effects = self.play_next();
            },
            Message::TrackFinished => {
                effects = self.play_next();
            },
            Message::PrevTrack => {
                effects = self.play_prev();
            },
            Message::AlbumDetailLoaded { idx: i, detail } => {
                effects = self.detail_loaded(i, detail);
            },
            Message::AlbumDetailFailed(e) => {
                self.status_msg = concat("Failed to load album: ", e.as_str());
                self.loading_tracks = false;
                self.dirty = true;
            },
            Message::PrefetchResult { idx: i, detail } => {
                effects = self.prefetched(i, detail);
            },
            Message::PrefetchDone => {
                effects.push(Effect::SaveCollectionCache);
                self.status_msg = String::new();
                self.dirty = true;
            },
            Message::Mp3Failed(e) => {
                self.status_msg = concat("Stream error: ", e.as_str());
                self.dirty = true;
            },
            Message::PlaybackError(e) => {
                self.status_msg = concat("Playback error: ", e.as_str());
                self.dirty = true;
            },
            Message::DownloadTrackDone { item_id, track_num } => self.track_downloaded(item_id, track_num),
            Message::DownloadAlbumDone { item_id } => {
                effects = self.album_downloaded(item_id);
            },
            Message::DownloadError { item_id, msg } => {
                let d = decimal_chars(item_id);
                let ds = string_of(d.as_slice());
                let s1 = concat("Download error (", ds.as_str());
                let s2 = concat(s1.as_str(), "): ");
                self.status_msg = concat(s2.as_str(), msg.as_str());
                self.dirty = true;
            },
            _ => {},
        }
        assert(self@ =~= step_task(v, idx, m).0);
        assert(effects@ =~= step_task(v, idx, m).1);
        effects
    }

    /// Handles a message: changes the state as `step` says and returns the
    /// effects for the program to perform, in order.
    pub fn update(&mut self, msg: Message) -> (effects: Vec<Effect>)
        requires
            old(self).queue.wf(),
            accepts(old(self)@, msg),
        ensures
            final(self)@ == step(old(self)@, old(self).artist_index, msg).0,
            effects@ == step(old(self)@, old(self).artist_index, msg).1,
            final(self).artist_index == old(self).artist_index,
            final(self).queue.wf(),
    {
        if is_nav(&msg) {
            self.update_nav(msg)
        } else if is_task(&msg) {
            self.update_task(msg)
        } else {
            self.update_ui(msg)
        }
    }
}

/// Whether a message moves the focus or a selection.
fn is_nav(msg: &Message) -> (r: bool)
    ensures
        r == is_nav_message(*msg),
{
    match msg {
        Message::FocusLeft | Message::FocusRight | Message::FocusColumn(_) | Message::SelectAt(_, _)
        | Message::ScrollColumn(_, _) | Message::MoveUp | Message::MoveDown | Message::MoveToTop
        | Message::MoveToBottom | Message::PageDown | Message::PageUp | Message::HalfPageDown
        | Message::HalfPageUp | Message::Enter => true,
        _ => false,
    }
}

/// Whether a message comes from playback or a background task.
fn is_task(msg: &Message) -> (r: bool)
    ensures
        r == is_task_message(*msg),
{
    match msg {
        Message::NextTrack | Message::TrackFinished | Message::PrevTrack
        | Message::AlbumDetailLoaded { .. } | Message::AlbumDetailFailed(_)
        | Message::PrefetchResult { .. } | Message::PrefetchDone | Message::Mp3Failed(_)
        | Message::PlaybackError(_) | Message::DownloadTrackDone { .. }
        | Message::DownloadAlbumDone { .. } | Message::DownloadError { .. } => true,
        _ => false,
    }
}

// ---------------------------------------------------------------------------
// Outcomes of the program's work
// ---------------------------------------------------------------------------

/// How the current track is to be played.
#[derive(PartialEq, Eq, Structural, Clone, Copy, Debug)]
pub enum PlaybackStart {
    /// From its downloaded file.
    Local,
    /// From its stream.
    Stream,
    /// It has neither: nothing plays.
    NoStream,
}

/// The album whose cover is loaded while a track starts.
pub struct CoverArt {
    pub artist_name: String,
    pub album_title: String,
    pub art_url: Option<String>,
}

/// What the program starts for the current track: the audio from its
/// downloaded file or from `stream_url`, and the loading of `cover`.
/// Nothing at all starts for `NoStream`.
pub struct PlaybackPlan {
    pub start: PlaybackStart,
    /// The stream to fetch; present exactly for `Stream`.
    pub stream_url: Option<String>,
    /// The cover to load; present exactly when audio starts.
    pub cover: Option<CoverArt>,
}

/// How a queue item plays: from its file when the program found one, else
/// from its stream when it has one, else not at all.
pub open spec fn start_of(item: QueueItem, local_found: bool) -> PlaybackStart {
    if local_found {
        PlaybackStart::Local
    } else if item.track.stream_url is None {
        PlaybackStart::NoStream
    } else {
        PlaybackStart::Stream
    }
}

/// The plan for a queue item: the stream address only when it is
/// streamed, and the item's album cover whenever its audio starts.
pub open spec fn plan_for(p: PlaybackPlan, item: QueueItem, local_found: bool) -> bool {
    let start = start_of(item, local_found);
    &&& p.start == start
    &&& p.stream_url == (if start == PlaybackStart::Stream { item.track.stream_url } else { None })
    &&& match p.cover {
        None => start == PlaybackStart::NoStream,
        Some(c) => {
            &&& start != PlaybackStart::NoStream
            &&& c.artist_name == item.artist_name
            &&& c.album_title == item.album_title
            &&& c.art_url == item.art_url
        },
    }
}

/// The status when a track starts.
pub open spec fn start_status(item: QueueItem, local_found: bool) -> Seq<char> {
    match start_of(item, local_found) {
        PlaybackStart::Local => playing_text("Playing (local): "@, item, seq![]),
        PlaybackStart::NoStream => "No stream URL for this track"@,
        PlaybackStart::Stream => playing_text("Buffering: "@, item, "..."@),
    }
}

/// The tracks that the library knows of a downloaded album: titles,
/// numbers and durations, no streams.
pub open spec fn library_track(d: DownloadedTrack) -> Track {
    Track { title: d.title, track_num: d.track_num, duration_ms: d.duration_ms, stream_url: None }
}

/// The album positions whose tracks are fetched in the background: those
/// with no tracks yet and a page to fetch them from.
pub open spec fn needing_fetch(albums: Seq<Album>) -> Seq<usize>
    decreases albums.len(),
{
    if albums.len() == 0 {
        seq![]
    } else {
        let p = needing_fetch(albums.drop_last());
        let a = albums.last();
        if a.tracks@.len() == 0 && a.item_url@.len() > 0 {
            p.push((albums.len() - 1) as usize)
        } else {
            p
        }
    }
}

/// The state of a player that just started with a library: the login
/// screen, no collection, nothing queued, nothing drawn yet.
pub open spec fn initial_view(library: Map<u64, DownloadedAlbumView>) -> AppView {
    let zero = Area { x: 0, y: 0, width: 0, height: 0 };
    AppView {
        screen: AppScreen::Login,
        show_settings: false,
        settings_scroll: 0,
        albums: seq![],
        queue_items: seq![],
        queue_current: None,
        nav: empty_nav(),
        library,
        meta_scroll: 0,
        loading_tracks: false,
        status: seq![],
        should_quit: false,
        dirty: true,
        login_step: LoginStep::Prompt,
        panes: Panes { artists: zero, albums: zero, tracks: zero, now_playing: zero },
        prefetch_total: 0,
        prefetch_done: 0,
        stream_bitrate: None,
    }
}

/// The positions of the albums with an art address whose cover is not
/// present (`present` holds, position by position, whether it is).
pub open spec fn needing_cover(albums: Seq<Album>, present: Seq<bool>) -> Seq<usize>
    decreases albums.len(),
{
    if albums.len() == 0 {
        seq![]
    } else {
        let p = needing_cover(albums.drop_last(), present);
        let k = albums.len() - 1;
        if albums.last().art_url is Some && !present[k] {
            p.push(k as usize)
        } else {
            p
        }
    }
}

/// The state once album `i` was opened with new contents `al2`: the track
/// column is refilled and its first row selected when it lists any.
pub open spec fn album_opened(v: AppView, i: int, al2: Album) -> AppView {
    let albums2 = v.albums.update(i, al2);
    let tf = track_filter(v.nav, albums2);
    let n1 = NavView { track_filtered: tf, ..v.nav };
    AppView {
        albums: albums2,
        nav: if tf.len() > 0 { NavView { track_state: select_spec(n1.track_state, Some(0)), ..n1 } } else { n1 },
        dirty: true,
        ..v
    }
}

/// An album with no tracks after the collection loaded: it takes its saved
/// tracks and texts when there are some, else the tracks of its library
/// entry when it has one, else it stays as it is. An album with tracks
/// stays as it is.
pub open spec fn hydrated(al: Album, al2: Album, saved: Option<AlbumDetail>, lib: Map<u64, DownloadedAlbumView>) -> bool {
    if al.tracks@.len() > 0 {
        al2 == al
    } else {
        match saved {
            Some(d) => al2 == with_detail(al, d),
            None => if lib.contains_key(al.item_id) {
                &&& al2 == Album { tracks: al2.tracks, ..al }
                &&& al2.tracks@ == lib[al.item_id].tracks.map_values(|d: DownloadedTrack| library_track(d))
            } else {
                al2 == al
            },
        }
    }
}

/// The collection's status once loaded.
pub open spec fn loaded_text(count: nat, from_cache: bool) -> Seq<char> {
    "Loaded "@ + decimal(count) + if from_cache { " albums from cache"@ } else { " albums"@ }
}

/// The navigation after a new collection: the artist column refilled and,
/// when there are artists, the first selected and the columns to its right
/// refilled.
pub open spec fn collection_nav(n: NavView, idx: ArtistIndex, albums: Seq<Album>) -> NavView {
    let n1 = NavView { artist_filtered: artist_filter(n, idx), ..n };
    if idx.artists@.len() > 0 {
        artist_changed(NavView { artist_state: select_spec(n1.artist_state, Some(0)), ..n1 }, idx, albums)
    } else {
        n1
    }
}

/// The status of a track being played: what, by whom, from where.
pub open spec fn playing_text(prefix: Seq<char>, item: QueueItem, suffix: Seq<char>) -> Seq<char> {
    prefix + item.artist_name@ + " - "@ + item.track.title@ + suffix
}

/// The status when downloads start for an artist.
pub open spec fn artist_download_text(count: nat, artist: Seq<char>) -> Seq<char> {
    if count > 0 {
        "Downloading "@ + decimal(count) + " albums for "@ + artist
    } else {
        "All albums already downloaded"@
    }
}

impl App {
    /// The state at start: the login screen, no collection yet, the library
    /// as loaded from disk.
    pub fn new(library: LibraryIndex) -> (r: Self)
        ensures
            r@ == initial_view(library_view(library.albums@)),
            r.queue.wf(),
            r.artist_index.describes(seq![]),
    {
        let zero = Area { x: 0, y: 0, width: 0, height: 0 };
        App {
            screen: AppScreen::Login,
            show_settings: false,
            settings_scroll: 0,
            albums: Vec::new(),
            artist_index: ArtistIndex::new(),
            queue: PlayQueue::new(),
            nav: Nav::new(),
            library,
            meta_scroll: 0,
            loading_tracks: false,
            status_msg: String::new(),
            should_quit: false,
            dirty: true,
            login_step: LoginStep::Prompt,
            panes: Panes { artists: zero, albums: zero, tracks: zero, now_playing: zero },
            prefetch_total: 0,
            prefetch_done: 0,
            stream_bitrate: None,
        }
    }

    /// A stored login was found: the collection loads.
    pub fn start_loading(&mut self)
        ensures
            final(self)@ == (AppView { screen: AppScreen::Loading, status: "Loading collection..."@, ..old(self)@ }),
            final(self).artist_index == old(self).artist_index,
            final(self).queue == old(self).queue,
    {
        self.screen = AppScreen::Loading;
        self.status_msg = text("Loading collection...");
    }

    /// The collection arrived: it is indexed by artist, the main screen
    /// shows, and the first artist is selected.
    pub fn collection_loaded(&mut self, albums: Vec<Album>)
        ensures
            final(self).artist_index.describes(artist_names(albums@)),
            final(self)@ == (AppView {
                albums: albums@,
                screen: AppScreen::Main,
                nav: collection_nav(old(self)@.nav, final(self).artist_index, albums@),
                ..old(self)@
            }),
            final(self).queue == old(self).queue,
    {
        self.albums = albums;
        self.artist_index = ArtistIndex::build(self.albums.as_slice());
        self.nav.recompute_artist_filter(&self.artist_index);
        self.screen = AppScreen::Main;
        if self.artist_index.artists.len() > 0 {
            self.nav.artist_state.select(Some(0));
            self.nav.on_artist_changed(&self.artist_index, &self.albums);
        }
        assert(self@ =~= (AppView {
            albums: albums@,
            screen: AppScreen::Main,
            nav: collection_nav(old(self)@.nav, self.artist_index, albums@),
            ..old(self)@
        }));
    }

    /// Loading the collection failed with `err`: the status says so, and
    /// when `to_login` (no usable login) the login screen shows again.
    pub fn collection_failed(&mut self, err: &str, to_login: bool)
        ensures
            final(self)@ == if to_login {
                AppView { status: "Error: "@ + err@, screen: AppScreen::Login, login_step: LoginStep::Prompt, ..old(self)@ }
            } else {
                AppView { status: "Error: "@ + err@, ..old(self)@ }
            },
            final(self).artist_index == old(self).artist_index,
            final(self).queue == old(self).queue,
    {
        self.status_msg = concat("Error: ", err);
        if to_login {
            self.screen = AppScreen::Login;
            self.login_step = LoginStep::Prompt;
        }
    }

    /// The status once the collection is loaded and nothing is fetched in
    /// the background: how many albums, and whether from the cache.
    pub fn collection_ready(&mut self, from_cache: bool)
        ensures
            final(self)@ == (AppView { status: loaded_text(old(self)@.albums.len(), from_cache), ..old(self)@ }),
            final(self).artist_index == old(self).artist_index,
            final(self).queue == old(self).queue,
    {
        let mut v = chars_of("Loaded ");
        let d = decimal_chars(self.albums.len() as u64);
        v.extend_from_slice(d.as_slice());
        let tail = if from_cache { chars_of(" albums from cache") } else { chars_of(" albums") };
        v.extend_from_slice(tail.as_slice());
        self.status_msg = string_of(v.as_slice());
        assert(self@ =~= (AppView { status: loaded_text(old(self)@.albums.len(), from_cache), ..old(self)@ }));
    }

    /// The collection cache was dropped: the collection reloads.
    pub fn refresh_started(&mut self)
        ensures
            final(self)@ == (AppView {
                albums: seq![],
                screen: AppScreen::Loading,
                status: "Refreshing collection..."@,
                ..old(self)@
            }),
            final(self).artist_index == old(self).artist_index,
            final(self).queue == old(self).queue,
    {
        self.albums = Vec::new();
        self.screen = AppScreen::Loading;
        self.status_msg = text("Refreshing collection...");
        assert(self@ =~= (AppView { albums: seq![], screen: AppScreen::Loading, status: "Refreshing collection..."@, ..old(self)@ }));
    }

    /// The login page was opened in the browser.
    pub fn login_page_opened(&mut self)
        ensures
            final(self)@ == (AppView {
                login_step: LoginStep::WaitingForBrowser,
                status: "Browser opened - log in, then press Enter here"@,
                ..old(self)@
            }),
            final(self).artist_index == old(self).artist_index,
            final(self).queue == old(self).queue,
    {
        self.login_step = LoginStep::WaitingForBrowser;
        self.status_msg = text("Browser opened - log in, then press Enter here");
    }

    /// The login cookie was found and saved: the collection loads.
    pub fn cookie_found(&mut self)
        ensures
            final(self)@ == (AppView {
                screen: AppScreen::Loading,
                status: "Authenticated! Loading collection..."@,
                ..old(self)@
            }),
            final(self).artist_index == old(self).artist_index,
            final(self).queue == old(self).queue,
    {
        self.screen = AppScreen::Loading;
        self.status_msg = text("Authenticated! Loading collection...");
    }

    /// No login cookie was found in the browser.
    pub fn cookie_missing(&mut self)
        ensures
            final(self)@ == (AppView {
                login_step: LoginStep::WaitingForBrowser,
                status: "Could not find cookie - make sure you're logged in, then press Enter"@,
                ..old(self)@
            }),
            final(self).artist_index == old(self).artist_index,
            final(self).queue == old(self).queue,
    {
        self.login_step = LoginStep::WaitingForBrowser;
        self.status_msg = text("Could not find cookie - make sure you're logged in, then press Enter");
    }

    /// An album takes the tracks and texts saved with it, while the
    /// collection loads.
    pub fn hydrate_from_metadata(&mut self, i: usize, d: AlbumDetail)
        requires
            i < old(self).albums@.len(),
        ensures
            final(self)@ == (AppView {
                albums: old(self)@.albums.update(i as int, with_detail(old(self)@.albums[i as int], d)),
                ..old(self)@
            }),
            final(self).artist_index == old(self).artist_index,
            final(self).queue == old(self).queue,
    {
        self.apply_detail(i, d);
    }

    /// An album being opened takes the tracks and texts saved with it; the
    /// track column is refilled and its first row selected.
    pub fn open_from_metadata(&mut self, i: usize, d: AlbumDetail)
        requires
            i < old(self).albums@.len(),
        ensures
            ({
                let albums2 = old(self)@.albums.update(i as int, with_detail(old(self)@.albums[i as int], d));
                let tf = track_filter(old(self)@.nav, albums2);
                let n1 = NavView { track_filtered: tf, ..old(self)@.nav };
                final(self)@ == (AppView {
                    albums: albums2,
                    nav: if tf.len() > 0 { NavView { track_state: select_spec(n1.track_state, Some(0)), ..n1 } } else { n1 },
                    dirty: true,
                    ..old(self)@
                })
            }),
            final(self).artist_index == old(self).artist_index,
            final(self).queue == old(self).queue,
    {
        self.apply_detail(i, d);
        self.nav.recompute_track_filter(&self.albums);
        if self.nav.track_filtered.len() > 0 {
            self.nav.track_state.select(Some(0));
        }
        self.dirty = true;
        proof {
            let albums2 = old(self)@.albums.update(i as int, with_detail(old(self)@.albums[i as int], d));
            let tf = track_filter(old(self)@.nav, albums2);
            let n1 = NavView { track_filtered: tf, ..old(self)@.nav };
            assert(self@ =~= (AppView {
                albums: albums2,
                nav: if tf.len() > 0 { NavView { track_state: select_spec(n1.track_state, Some(0)), ..n1 } } else { n1 },
                dirty: true,
                ..old(self)@
            }));
        }
    }

    /// An album with no tracks takes those of its library entry, if it is
    /// in the library; whether it was.
    pub fn tracks_from_library(&mut self, i: usize) -> (found: bool)
        requires
            i < old(self).albums@.len(),
        ensures
            ({
                let al = old(self)@.albums[i as int];
                found == old(self)@.library.contains_key(al.item_id)
            }),
            found ==> final(self).albums@[i as int].tracks@ == old(self)@.library[old(self)@.albums[i as int].item_id].tracks.map_values(
                |d: DownloadedTrack| library_track(d),
            ),
            found ==> final(self)@ == (AppView {
                albums: old(self)@.albums.update(
                    i as int,
                    Album { tracks: final(self).albums@[i as int].tracks, ..old(self)@.albums[i as int] },
                ),
                ..old(self)@
            }),
            !found ==> final(self)@ == old(self)@,
            final(self).artist_index == old(self).artist_index,
            final(self).queue == old(self).queue,
    {
        let id = self.albums[i].item_id;
        let tracks = match self.library.albums.get(&id) {
            Some(dl) => library_tracks(&dl.tracks),
            None => return false,
        };
        self.albums[i].tracks = tracks;
        assert(self@ =~= (AppView {
            albums: old(self)@.albums.update(i as int, Album { tracks: self.albums@[i as int].tracks, ..old(self)@.albums[i as int] }),
            ..old(self)@
        }));
        true
    }

    /// Opens album `i` for its tracks: an album with tracks needs nothing;
    /// else it takes its saved tracks and texts (`saved`, read by the
    /// program), else the tracks of its library entry, and the track column
    /// is refilled; else its page is fetched, unless a fetch runs or there
    /// is no client. Whether the page is to be fetched.
    pub fn open_album(&mut self, i: usize, saved: Option<AlbumDetail>, has_client: bool) -> (fetch: bool)
        requires
            i < old(self).albums@.len(),
        ensures
            ({
                let v = old(self)@;
                let al = v.albums[i as int];
                if al.tracks@.len() > 0 {
                    !fetch && final(self)@ == v
                } else {
                    match saved {
                        Some(d) => !fetch && final(self)@ == album_opened(v, i as int, with_detail(al, d)),
                        None => if v.library.contains_key(al.item_id) {
                            &&& !fetch
                            &&& final(self).albums@[i as int].tracks@ == v.library[al.item_id].tracks.map_values(
                                |d: DownloadedTrack| library_track(d),
                            )
                            &&& final(self)@ == album_opened(
                                v,
                                i as int,
                                Album { tracks: final(self).albums@[i as int].tracks, ..al },
                            )
                        } else if !v.loading_tracks && has_client {
                            fetch && final(self)@ == (AppView { loading_tracks: true, dirty: true, ..v })
                        } else {
                            !fetch && final(self)@ == v
                        },
                    }
                }
            }),
            final(self).artist_index == old(self).artist_index,
            final(self).queue == old(self).queue,
    {
        if self.albums[i].tracks.len() > 0 {
            return false;
        }
        match saved {
            Some(d) => {
                self.open_from_metadata(i, d);
                false
            },
            None => {
                if self.tracks_from_library(i) {
                    let ghost mid = self@;
                    self.nav.recompute_track_filter(&self.albums);
                    if self.nav.track_filtered.len() > 0 {
                        self.nav.track_state.select(Some(0));
                    }
                    self.dirty = true;
                    proof {
                        let v = old(self)@;
                        let al2 = Album { tracks: self.albums@[i as int].tracks, ..v.albums[i as int] };
                        assert(mid.albums =~= v.albums.update(i as int, al2));
                        assert(self@ =~= album_opened(v, i as int, al2));
                    }
                    false
                } else {
                    self.begin_remote_load(has_client)
                }
            },
        }
    }

    /// After the collection loaded, fills every album that has no tracks
    /// from what was saved with it (`saved[i]`, read by the program), else
    /// from the library.
    pub fn hydrate_all(&mut self, saved: Vec<Option<AlbumDetail>>)
        requires
            saved@.len() == old(self).albums@.len(),
        ensures
            final(self)@ == (AppView { albums: final(self)@.albums, ..old(self)@ }),
            final(self).albums@.len() == old(self).albums@.len(),
            forall|k: int|
                0 <= k < old(self).albums@.len() ==> hydrated(
                    old(self)@.albums[k],
                    #[trigger] final(self)@.albums[k],
                    saved@[k],
                    old(self)@.library,
                ),
            final(self).artist_index == old(self).artist_index,
            final(self).queue == old(self).queue,
    {
        let ghost saved0 = saved@;
        let mut saved = saved;
        let mut n: usize = saved.len();
        while n > 0
            invariant
                n <= old(self).albums@.len(),
                saved@ == saved0.take(n as int),
                saved0.len() == old(self).albums@.len(),
                self@ == (AppView { albums: self@.albums, ..old(self)@ }),
                self.albums@.len() == old(self).albums@.len(),
                self.artist_index == old(self).artist_index,
                self.queue == old(self).queue,
                forall|k: int| 0 <= k < n ==> #[trigger] self@.albums[k] == old(self)@.albums[k],
                forall|k: int|
                    n <= k < old(self).albums@.len() ==> hydrated(
                        old(self)@.albums[k],
                        #[trigger] self@.albums[k],
                        saved0[k],
                        old(self)@.library,
                    ),
            decreases n,
        {
            let s = saved.pop();
            n -= 1;
            assert(saved0.take(n + 1).drop_last() =~= saved0.take(n as int));
            let ghost before = self@;
            if self.albums[n].tracks.len() == 0 {
                match s {
                    Some(Some(d)) => {
                        self.hydrate_from_metadata(n, d);
                    },
                    _ => {
                        self.tracks_from_library(n);
                    },
                }
            }
            proof {
                assert forall|k: int| 0 <= k < n implies #[trigger] self@.albums[k] == old(self)@.albums[k] by {
                    assert(self@.albums[k] == before.albums[k]);
                }
                assert forall|k: int|
                    n <= k < old(self).albums@.len() implies hydrated(
                        old(self)@.albums[k],
                        #[trigger] self@.albums[k],
                        saved0[k],
                        old(self)@.library,
                    ) by {
                    if k > n {
                        assert(self@.albums[k] == before.albums[k]);
                    }
                }
            }
        }
    }

    /// Whether the tracks of the album being opened are fetched from its
    /// page: not while another fetch runs, nor without a client; when they
    /// are, the loading starts.
    pub fn begin_remote_load(&mut self, has_client: bool) -> (fetch: bool)
        ensures
            fetch == (!old(self).loading_tracks && has_client),
            final(self)@ == if fetch {
                AppView { loading_tracks: true, dirty: true, ..old(self)@ }
            } else {
                old(self)@
            },
            final(self).artist_index == old(self).artist_index,
            final(self).queue == old(self).queue,
    {
        if self.loading_tracks || !has_client {
            return false;
        }
        self.loading_tracks = true;
        self.dirty = true;
        true
    }

    /// The albums whose tracks are fetched in the background.
    pub fn albums_needing_fetch(&self) -> (r: Vec<usize>)
        ensures
            r@ == needing_fetch(self.albums@),
    {
        let mut out: Vec<usize> = Vec::new();
        let mut i: usize = 0;
        assert(self.albums@.take(0) =~= seq![]);
        while i < self.albums.len()
            invariant
                i <= self.albums@.len(),
                out@ == needing_fetch(self.albums@.take(i as int)),
            decreases self.albums@.len() - i,
        {
            assert(self.albums@.take(i + 1).drop_last() =~= self.albums@.take(i as int));
            if self.albums[i].tracks.len() == 0 && !self.albums[i].item_url.as_str().is_empty() {
                out.push(i);
            }
            i += 1;
        }
        assert(self.albums@.take(i as int) =~= self.albums@);
        out
    }

    /// The albums whose cover is fetched: those with an art address whose
    /// cover is not present (`present[i]`, as the program found it).
    pub fn albums_needing_cover(&self, present: &[bool]) -> (r: Vec<usize>)
        requires
            present@.len() == self.albums@.len(),
        ensures
            r@ == needing_cover(self.albums@, present@),
    {
        let mut out: Vec<usize> = Vec::new();
        let mut i: usize = 0;
        assert(self.albums@.take(0) =~= seq![]);
        while i < self.albums.len()
            invariant
                i <= self.albums@.len(),
                present@.len() == self.albums@.len(),
                out@ == needing_cover(self.albums@.take(i as int), present@),
            decreases self.albums@.len() - i,
        {
            assert(self.albums@.take(i + 1).drop_last() =~= self.albums@.take(i as int));
            if self.albums[i].art_url.is_some() && !present[i] {
                out.push(i);
            }
            i += 1;
        }
        assert(self.albums@.take(i as int) =~= self.albums@);
        out
    }

    /// The background fetch of `total` albums starts.
    pub fn begin_prefetch(&mut self, total: usize)
        ensures
            final(self)@ == (AppView { prefetch_total: total, prefetch_done: 0, status: syncing_text(0, total as nat), ..old(self)@ }),
            final(self).artist_index == old(self).artist_index,
            final(self).queue == old(self).queue,
    {
        self.prefetch_total = total;
        self.prefetch_done = 0;
        self.status_msg = syncing_status(0, total);
    }

    /// Starts playing the queue's current track, from its downloaded file
    /// when `local_found` (the program found the file), else from its stream.
    /// Nothing happens without a current track.
    pub fn begin_playback(&mut self, local_found: bool) -> (r: Option<PlaybackPlan>)
        ensures
            match crate::queue::item_at(old(self).queue.items@, old(self).queue.current) {
                None => r is None && final(self)@ == old(self)@,
                Some(item) => {
                    &&& r matches Some(p) && plan_for(p, item, local_found)
                    &&& final(self)@ == (AppView { dirty: true, status: start_status(item, local_found), ..old(self)@ })
                },
            },
            final(self).artist_index == old(self).artist_index,
            final(self).queue == old(self).queue,
    {
        let (artist, title, stream, album, art) = match self.queue.current_item() {
            Some(item) => (
                item.artist_name.clone(),
                item.track.title.clone(),
                crate::models::copy_opt_string(&item.track.stream_url),
                item.album_title.clone(),
                crate::models::copy_opt_string(&item.art_url),
            ),
            None => return None,
        };
        self.dirty = true;
        if local_found {
            let s1 = concat("Playing (local): ", artist.as_str());
            let s2 = concat(s1.as_str(), " - ");
            self.status_msg = concat(s2.as_str(), title.as_str());
            assert(self.status_msg@ =~= playing_text("Playing (local): "@, crate::queue::item_at(old(self).queue.items@, old(self).queue.current).unwrap(), seq![]));
            let cover = CoverArt { artist_name: artist, album_title: album, art_url: art };
            Some(PlaybackPlan { start: PlaybackStart::Local, stream_url: None, cover: Some(cover) })
        } else if stream.is_none() {
            self.status_msg = text("No stream URL for this track");
            Some(PlaybackPlan { start: PlaybackStart::NoStream, stream_url: None, cover: None })
        } else {
            let s1 = concat("Buffering: ", artist.as_str());
            let s2 = concat(s1.as_str(), " - ");
            let s3 = concat(s2.as_str(), title.as_str());
            self.status_msg = concat(s3.as_str(), "...");
            let cover = CoverArt { artist_name: artist, album_title: album, art_url: art };
            Some(PlaybackPlan { start: PlaybackStart::Stream, stream_url: stream, cover: Some(cover) })
        }
    }

    /// The audio of the current track arrived: its bit rate is read.
    pub fn audio_arrived(&mut self, data: &[u8])
        requires
            audio_start(data@) <= data@.len(),
        ensures
            final(self)@ == (AppView { stream_bitrate: mp3_bitrate_spec(data@), ..old(self)@ }),
            final(self).artist_index == old(self).artist_index,
            final(self).queue == old(self).queue,
    {
        self.stream_bitrate = parse_mp3_bitrate(data);
        assert(self@ =~= (AppView { stream_bitrate: mp3_bitrate_spec(data@), ..old(self)@ }));
    }

    /// The audio started playing: the metadata scrolls back to its top.
    pub fn audio_started(&mut self)
        ensures
            final(self)@ == (AppView { meta_scroll: 0, status: seq![], dirty: true, ..old(self)@ }),
            final(self).artist_index == old(self).artist_index,
            final(self).queue == old(self).queue,
    {
        self.meta_scroll = 0;
        self.status_msg = String::new();
        self.dirty = true;
        assert(self@ =~= (AppView { meta_scroll: 0, status: seq![], dirty: true, ..old(self)@ }));
    }

    /// Sets the status line.
    pub fn set_status(&mut self, msg: String)
        ensures
            final(self)@ == (AppView { status: msg@, ..old(self)@ }),
            final(self).artist_index == old(self).artist_index,
            final(self).queue == old(self).queue,
    {
        self.status_msg = msg;
    }

    /// Enters an album in the library before its download starts, when it
    /// has tracks and is not downloaded yet; whether it was entered.
    pub fn register_download(&mut self, i: usize, choice: &FormatChoice) -> (entered: bool)
        requires
            i < old(self).albums@.len(),
            choice.wf(),
        ensures
            ({
                let al = old(self)@.albums[i as int];
                entered == (al.tracks@.len() > 0 && !(old(self)@.library.contains_key(al.item_id)
                    && old(self)@.library[al.item_id].status == AlbumDownloadStatus::Complete))
            }),
            entered ==> final(self)@.library == old(self)@.library.insert(
                old(self)@.albums[i as int].item_id,
                final(self)@.library[old(self)@.albums[i as int].item_id],
            ),
            entered ==> entry_for(final(self)@.library[old(self)@.albums[i as int].item_id], old(self)@.albums[i as int], choice.index as nat),
            entered ==> final(self)@ == (AppView { library: final(self)@.library, ..old(self)@ }),
            !entered ==> final(self)@ == old(self)@,
            final(self).artist_index == old(self).artist_index,
            final(self).queue == old(self).queue,
    {
        let id = self.albums[i].item_id;
        if self.albums[i].tracks.len() == 0 || self.library.is_downloaded(id) {
            return false;
        }
        let entry = prepare_album_entry(&self.albums[i], choice);
        self.library.insert(entry);
        proof {
            assert(library_view(self.library.albums@) =~= library_view(old(self).library.albums@).insert(
                id,
                library_view(self.library.albums@)[id],
            ));
        }
        assert(self@ =~= (AppView { library: self@.library, ..old(self)@ }));
        true
    }

    /// Starts the download of the selected album (its tracks already
    /// fetched when it had none): a downloaded album is refused with a
    /// status; any other is entered in the library, downloading, and the
    /// status names it. Whether the download starts.
    pub fn begin_album_download(&mut self, i: usize, choice: &FormatChoice) -> (started: bool)
        requires
            i < old(self).albums@.len(),
            choice.wf(),
        ensures
            ({
                let v = old(self)@;
                let al = v.albums[i as int];
                if v.library.contains_key(al.item_id) && v.library[al.item_id].status == AlbumDownloadStatus::Complete {
                    !started && final(self)@ == (AppView { status: "Already downloaded"@, ..v })
                } else {
                    &&& started
                    &&& final(self)@.library == v.library.insert(al.item_id, final(self)@.library[al.item_id])
                    &&& entry_for(final(self)@.library[al.item_id], al, choice.index as nat)
                    &&& final(self)@ == (AppView {
                        library: final(self)@.library,
                        status: "Downloading: "@ + al.artist_name@ + " - "@ + al.album_title@,
                        dirty: true,
                        ..v
                    })
                }
            }),
            final(self).artist_index == old(self).artist_index,
            final(self).queue == old(self).queue,
    {
        let id = self.albums[i].item_id;
        if self.library.is_downloaded(id) {
            self.status_msg = text("Already downloaded");
            return false;
        }
        let entry = prepare_album_entry(&self.albums[i], choice);
        self.library.insert(entry);
        let mut v = chars_of("Downloading: ");
        let a = chars_of(self.albums[i].artist_name.as_str());
        v.extend_from_slice(a.as_slice());
        let sep = chars_of(" - ");
        v.extend_from_slice(sep.as_slice());
        let t = chars_of(self.albums[i].album_title.as_str());
        v.extend_from_slice(t.as_slice());
        self.status_msg = string_of(v.as_slice());
        self.dirty = true;
        proof {
            assert(library_view(self.library.albums@) =~= library_view(old(self).library.albums@).insert(
                id,
                library_view(self.library.albums@)[id],
            ));
        }
        assert(self@ =~= (AppView {
            library: self@.library,
            status: "Downloading: "@ + old(self)@.albums[i as int].artist_name@ + " - "@ + old(self)@.albums[i as int].album_title@,
            dirty: true,
            ..old(self)@
        }));
        true
    }

    /// The status once the downloads of the whole collection started.
    pub fn all_downloads_started(&mut self, count: usize)
        ensures
            final(self)@ == (AppView { status: "Downloading "@ + decimal(count as nat) + " albums..."@, dirty: true, ..old(self)@ }),
            final(self).artist_index == old(self).artist_index,
            final(self).queue == old(self).queue,
    {
        let mut v = chars_of("Downloading ");
        let d = decimal_chars(count as u64);
        v.extend_from_slice(d.as_slice());
        let tail = chars_of(" albums...");
        v.extend_from_slice(tail.as_slice());
        self.status_msg = string_of(v.as_slice());
        self.dirty = true;
        assert(self@ =~= (AppView { status: "Downloading "@ + decimal(count as nat) + " albums..."@, dirty: true, ..old(self)@ }));
    }

    /// The status once the downloads of an artist's albums started.
    pub fn artist_downloads_started(&mut self, count: usize, artist: &str)
        ensures
            final(self)@ == (AppView { status: artist_download_text(count as nat, artist@), dirty: true, ..old(self)@ }),
            final(self).artist_index == old(self).artist_index,
            final(self).queue == old(self).queue,
    {
        if count > 0 {
            let mut v = chars_of("Downloading ");
            let d = decimal_chars(count as u64);
            v.extend_from_slice(d.as_slice());
            let mid = chars_of(" albums for ");
            v.extend_from_slice(mid.as_slice());
            let a = chars_of(artist);
            v.extend_from_slice(a.as_slice());
            self.status_msg = string_of(v.as_slice());
        } else {
            self.status_msg = text("All albums already downloaded");
        }
        self.dirty = true;
        assert(self@ =~= (AppView { status: artist_download_text(count as nat, artist@), dirty: true, ..old(self)@ }));
    }

    /// The name of the selected artist.
    pub fn selected_artist_name(&self) -> (r: Option<&String>)
        ensures
            match r {
                Some(name) => self.nav@.artist_state.selected matches Some(s) && s < self.nav@.artist_filtered.len()
                    && self.nav@.artist_filtered[s as int] < self.artist_index.artists@.len()
                    && *name == self.artist_index.artists@[self.nav@.artist_filtered[s as int] as int],
                None => !(self.nav@.artist_state.selected matches Some(s) && s < self.nav@.artist_filtered.len()
                    && self.nav@.artist_filtered[s as int] < self.artist_index.artists@.len()),
            },
    {
        let s = match self.nav.artist_state.selected {
            Some(s) => s,
            None => return None,
        };
        if s >= self.nav.artist_filtered.len() {
            return None;
        }
        let a = self.nav.artist_filtered[s];
        if a < self.artist_index.artists.len() {
            Some(&self.artist_index.artists[a])
        } else {
            None
        }
    }

    /// The selected album.
    pub fn selected_album(&self) -> (r: Option<&Album>)
        ensures
            match r {
                Some(al) => self.nav@.selected_album matches Some(i) && i < self.albums@.len() && *al == self.albums@[i as int],
                None => !(self.nav@.selected_album matches Some(i) && i < self.albums@.len()),
            },
    {
        match self.nav.selected_album_idx {
            Some(i) => if i < self.albums.len() {
                Some(&self.albums[i])
            } else {
                None
            },
            None => None,
        }
    }
}

/// The tracks of a library album, as an album lists them.
fn library_tracks(dl: &Vec<DownloadedTrack>) -> (r: Vec<Track>)
    ensures
        r@ == dl@.map_values(|d: DownloadedTrack| library_track(d)),
{
    let mut out: Vec<Track> = Vec::new();
    let mut i: usize = 0;
    while i < dl.len()
        invariant
            i <= dl@.len(),
            out@ =~= dl@.take(i as int).map_values(|d: DownloadedTrack| library_track(d)),
        decreases dl@.len() - i,
    {
        let t = Track {
            title: dl[i].title.clone(),
            track_num: dl[i].track_num,
            duration_ms: dl[i].duration_ms,
            stream_url: None,
        };
        out.push(t);
        i += 1;
    }
    assert(dl@.take(i as int) =~= dl@);
    out
}

} // verus!
