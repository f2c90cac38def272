//! Navigation in the three columns (artists, albums, tracks): what each
//! column lists under the search filter, which row is selected, and how a
//! new selection in one column refills the columns to its right.
use vstd::prelude::*;
use crate::artists::ArtistIndex;
use crate::models::{Album, Track};
use crate::text::{chars_of, contains, contains_spec, to_lowercase, lowercase_of};

verus! {

/// The columns of the main screen.
#[derive(PartialEq, Eq, Structural, Clone, Copy, Debug)]
pub enum Column {
    Artists,
    Albums,
    Tracks,
}

/// The selection and scroll position of a list (what `ratatui`'s
/// `ListState` holds).
#[derive(PartialEq, Eq, Structural, Clone, Copy, Debug)]
pub struct ListSel {
    pub selected: Option<usize>,
    pub offset: usize,
}

/// Selecting a row keeps the scroll offset; clearing the selection resets
/// it to the top.
pub open spec fn select_spec(s: ListSel, i: Option<usize>) -> ListSel {
    ListSel {
        selected: i,
        offset: if i is None { 0 } else { s.offset },
    }
}

impl ListSel {
    /// Nothing selected, scrolled to the top.
    pub fn new() -> (r: Self)
        ensures
            r.selected is None,
            r.offset == 0,
    {
        ListSel { selected: None, offset: 0 }
    }

    /// Selects a row, or clears the selection.
    pub fn select(&mut self, i: Option<usize>)
        ensures
            *final(self) == select_spec(*old(self), i),
    {
        self.selected = i;
        if i.is_none() {
            self.offset = 0;
        }
    }
}

/// The navigation state.
pub struct Nav {
    pub focus: Column,
    pub filter_text: String,
    pub filter_mode: bool,
    pub artist_state: ListSel,
    pub album_state: ListSel,
    pub track_state: ListSel,
    /// Positions in the artist index of the artists listed.
    pub artist_filtered: Vec<usize>,
    /// Positions, among the selected artist's albums, of the albums listed.
    pub album_filtered: Vec<usize>,
    /// Positions, among the selected album's tracks, of the tracks listed.
    pub track_filtered: Vec<usize>,
    /// The selected album's position in the collection.
    pub selected_album_idx: Option<usize>,
}

/// Model of the navigation state.
#[verifier::ext_equal]
pub struct NavView {
    pub focus: Column,
    pub filter: Seq<char>,
    pub filter_mode: bool,
    pub artist_state: ListSel,
    pub album_state: ListSel,
    pub track_state: ListSel,
    pub artist_filtered: Seq<usize>,
    pub album_filtered: Seq<usize>,
    pub track_filtered: Seq<usize>,
    pub selected_album: Option<usize>,
}

impl View for Nav {
    type V = NavView;

    open spec fn view(&self) -> NavView {
        NavView {
            focus: self.focus,
            filter: self.filter_text@,
            filter_mode: self.filter_mode,
            artist_state: self.artist_state,
            album_state: self.album_state,
            track_state: self.track_state,
            artist_filtered: self.artist_filtered@,
            album_filtered: self.album_filtered@,
            track_filtered: self.track_filtered@,
            selected_album: self.selected_album_idx,
        }
    }
}

/// `0, 1, ..., n - 1`.
pub open spec fn range_seq(n: nat) -> Seq<usize> {
    Seq::new(n, |i: int| i as usize)
}

/// The positions of the texts that contain the query, both lower-cased;
/// an absent text never matches.
pub open spec fn matching(texts: Seq<Option<Seq<char>>>, q: Seq<char>) -> Seq<usize>
    decreases texts.len(),
{
    if texts.len() == 0 {
        seq![]
    } else {
        let p = matching(texts.drop_last(), q);
        match texts.last() {
            Some(t) => if contains_spec(lowercase_of(t), lowercase_of(q)) {
                p.push((texts.len() - 1) as usize)
            } else {
                p
            },
            None => p,
        }
    }
}

/// The albums of the artist at a position of the index.
pub open spec fn albums_for_spec(idx: ArtistIndex, a: usize) -> Seq<usize> {
    if a < idx.albums_by_artist@.len() {
        idx.albums_by_artist@[a as int]@
    } else {
        seq![]
    }
}

/// The names of the index's artists.
pub open spec fn artist_texts(idx: ArtistIndex) -> Seq<Option<Seq<char>>> {
    idx.artists@.map_values(|s: String| Some(s@))
}

/// The artists listed: all of them, or when the artist column is searched,
/// those whose name contains the search text.
pub open spec fn artist_filter(n: NavView, idx: ArtistIndex) -> Seq<usize> {
    if n.filter.len() == 0 || n.focus != Column::Artists {
        range_seq(idx.artists@.len())
    } else {
        matching(artist_texts(idx), n.filter)
    }
}

/// The collection positions of the selected artist's albums.
pub open spec fn artist_albums(n: NavView, idx: ArtistIndex) -> Seq<usize> {
    match n.artist_state.selected {
        None => seq![],
        Some(s) => if s < n.artist_filtered.len() {
            albums_for_spec(idx, n.artist_filtered[s as int])
        } else {
            seq![]
        },
    }
}

/// The title of the album at a collection position.
pub open spec fn album_title_at(albums: Seq<Album>, x: usize) -> Option<Seq<char>> {
    if x < albums.len() {
        Some(albums[x as int].album_title@)
    } else {
        None
    }
}

/// The titles of the albums at collection positions.
pub open spec fn album_texts(albums: Seq<Album>, aa: Seq<usize>) -> Seq<Option<Seq<char>>> {
    aa.map_values(|x: usize| album_title_at(albums, x))
}

/// The albums listed: all the selected artist's albums, or when the album
/// column is searched, those whose title contains the search text.
pub open spec fn album_filter(n: NavView, idx: ArtistIndex, albums: Seq<Album>) -> Seq<usize> {
    let aa = artist_albums(n, idx);
    if n.filter.len() == 0 || n.focus != Column::Albums {
        range_seq(aa.len())
    } else {
        matching(album_texts(albums, aa), n.filter)
    }
}

/// The tracks of the selected album.
pub open spec fn album_tracks(albums: Seq<Album>, sel: Option<usize>) -> Seq<Track> {
    match sel {
        Some(i) => if i < albums.len() {
            albums[i as int].tracks@
        } else {
            seq![]
        },
        None => seq![],
    }
}

/// The titles of tracks.
pub open spec fn track_texts(ts: Seq<Track>) -> Seq<Option<Seq<char>>> {
    ts.map_values(|t: Track| Some(t.title@))
}

/// The tracks listed: all the selected album's tracks, or when the track
/// column is searched, those whose title contains the search text.
pub open spec fn track_filter(n: NavView, albums: Seq<Album>) -> Seq<usize> {
    let ts = album_tracks(albums, n.selected_album);
    if n.filter.len() == 0 || n.focus != Column::Tracks {
        range_seq(ts.len())
    } else {
        matching(track_texts(ts), n.filter)
    }
}

/// The first row of a list, when there is one.
pub open spec fn first_row(len: nat) -> Option<usize> {
    if len > 0 {
        Some(0)
    } else {
        None
    }
}

/// The collection position of the album selected in the album column (the
/// first listed one when no row is selected); none without a selected artist.
pub open spec fn chosen_album(n: NavView, idx: ArtistIndex) -> Option<usize> {
    if n.artist_state.selected is Some {
        let aa = artist_albums(n, idx);
        let s: usize = match n.album_state.selected {
            Some(s) => s,
            None => 0,
        };
        if s < n.album_filtered.len() && n.album_filtered[s as int] < aa.len() {
            Some(aa[n.album_filtered[s as int] as int])
        } else {
            None
        }
    } else {
        None
    }
}

/// After the album selection moved: the selected album follows it, and the
/// track column is refilled with its first row selected.
pub open spec fn album_changed(n: NavView, idx: ArtistIndex, albums: Seq<Album>) -> NavView {
    let n1 = NavView { selected_album: chosen_album(n, idx), ..n };
    let tf = track_filter(n1, albums);
    NavView { track_filtered: tf, track_state: select_spec(n.track_state, first_row(tf.len())), ..n1 }
}

/// After the artist selection moved: the album column is refilled with its
/// first row selected, and then as after an album move.
pub open spec fn artist_changed(n: NavView, idx: ArtistIndex, albums: Seq<Album>) -> NavView {
    let af = album_filter(n, idx, albums);
    let n1 = NavView { album_filtered: af, album_state: select_spec(n.album_state, first_row(af.len())), ..n };
    album_changed(n1, idx, albums)
}

/// After the search text or the focus changed: the focused column is
/// refilled, and the columns to its right follow.
pub open spec fn active_filter_changed(n: NavView, idx: ArtistIndex, albums: Seq<Album>) -> NavView {
    match n.focus {
        Column::Artists => artist_changed(NavView { artist_filtered: artist_filter(n, idx), ..n }, idx, albums),
        Column::Albums => album_changed(NavView { album_filtered: album_filter(n, idx, albums), ..n }, idx, albums),
        Column::Tracks => NavView { track_filtered: track_filter(n, albums), ..n },
    }
}

/// Whether a text contains an already lower-cased query once lower-cased.
fn lower_contains(text: &str, q: &[char]) -> (r: bool)
    ensures
        r == contains_spec(lowercase_of(text@), q@),
{
    let l = to_lowercase(text);
    let lc = chars_of(l.as_str());
    contains(lc.as_slice(), q)
}

/// `0, 1, ..., n - 1`.
fn range_vec(n: usize) -> (r: Vec<usize>)
    ensures
        r@ == range_seq(n as nat),
{
    let mut v: Vec<usize> = Vec::new();
    let mut i: usize = 0;
    while i < n
        invariant
            i <= n,
            v@ =~= range_seq(i as nat),
        decreases n - i,
    {
        v.push(i);
        i += 1;
    }
    v
}

/// One step of `matching`.
proof fn lemma_matching_step(texts: Seq<Option<Seq<char>>>, q: Seq<char>, i: int)
    requires
        0 <= i < texts.len(),
    ensures
        matching(texts.take(i + 1), q) == match texts[i] {
            Some(t) => if contains_spec(lowercase_of(t), lowercase_of(q)) {
                matching(texts.take(i), q).push(i as usize)
            } else {
                matching(texts.take(i), q)
            },
            None => matching(texts.take(i), q),
        },
{
    assert(texts.take(i + 1).drop_last() =~= texts.take(i));
}

/// The navigation state of an empty collection: the artists focused, no
/// search, nothing listed or selected.
pub open spec fn empty_nav() -> NavView {
    NavView {
        focus: Column::Artists,
        filter: seq![],
        filter_mode: false,
        artist_state: ListSel { selected: None, offset: 0 },
        album_state: ListSel { selected: None, offset: 0 },
        track_state: ListSel { selected: None, offset: 0 },
        artist_filtered: seq![],
        album_filtered: seq![],
        track_filtered: seq![],
        selected_album: None,
    }
}

impl Nav {
    /// The navigation state of an empty collection.
    pub fn new() -> (r: Self)
        ensures
            r@ == empty_nav(),
    {
        Nav {
            focus: Column::Artists,
            filter_text: String::new(),
            filter_mode: false,
            artist_state: ListSel::new(),
            album_state: ListSel::new(),
            track_state: ListSel::new(),
            artist_filtered: Vec::new(),
            album_filtered: Vec::new(),
            track_filtered: Vec::new(),
            selected_album_idx: None,
        }
    }

    /// Refills the artist column.
    pub fn recompute_artist_filter(&mut self, idx: &ArtistIndex)
        ensures
            final(self)@ == (NavView { artist_filtered: artist_filter(old(self)@, *idx), ..old(self)@ }),
    {
        if self.filter_text.as_str().is_empty() || self.focus != Column::Artists {
            self.artist_filtered = range_vec(idx.artists.len());
            return;
        }
        let ql = to_lowercase(self.filter_text.as_str());
        let q = chars_of(ql.as_str());
        let ghost texts = artist_texts(*idx);
        let mut out: Vec<usize> = Vec::new();
        let mut i: usize = 0;
        assert(texts.take(0) =~= seq![]);
        while i < idx.artists.len()
            invariant
                i <= idx.artists@.len(),
                texts == artist_texts(*idx),
                q@ == lowercase_of(self.filter_text@),
                out@ == matching(texts.take(i as int), self.filter_text@),
            decreases idx.artists@.len() - i,
        {
            proof {
                lemma_matching_step(texts, self.filter_text@, i as int);
            }
            if lower_contains(idx.artists[i].as_str(), q.as_slice()) {
                out.push(i);
            }
            i += 1;
        }
        assert(texts.take(i as int) =~= texts);
        self.artist_filtered = out;
    }
}

impl Nav {
    /// The collection positions of the selected artist's albums.
    pub fn current_artist_album_indices(&self, idx: &ArtistIndex) -> (r: Vec<usize>)
        ensures
            r@ == artist_albums(self@, *idx),
    {
        let s = match self.artist_state.selected {
            Some(s) => s,
            None => return Vec::new(),
        };
        if s >= self.artist_filtered.len() {
            return Vec::new();
        }
        let a = self.artist_filtered[s];
        let sl = idx.albums_for(a);
        let mut v: Vec<usize> = Vec::new();
        let mut i: usize = 0;
        while i < sl.len()
            invariant
                i <= sl@.len(),
                v@ =~= sl@.take(i as int),
            decreases sl@.len() - i,
        {
            v.push(sl[i]);
            i += 1;
        }
        assert(sl@.take(i as int) =~= sl@);
        v
    }

    /// Refills the album column.
    pub fn recompute_album_filter(&mut self, idx: &ArtistIndex, albums: &Vec<Album>)
        ensures
            final(self)@ == (NavView { album_filtered: album_filter(old(self)@, *idx, albums@), ..old(self)@ }),
    {
        let aa = self.current_artist_album_indices(idx);
        if self.filter_text.as_str().is_empty() || self.focus != Column::Albums {
            self.album_filtered = range_vec(aa.len());
            return;
        }
        let ql = to_lowercase(self.filter_text.as_str());
        let q = chars_of(ql.as_str());
        let ghost texts = album_texts(albums@, aa@);
        let mut out: Vec<usize> = Vec::new();
        let mut i: usize = 0;
        assert(texts.take(0) =~= seq![]);
        while i < aa.len()
            invariant
                i <= aa@.len(),
                texts == album_texts(albums@, aa@),
                q@ == lowercase_of(self.filter_text@),
                out@ == matching(texts.take(i as int), self.filter_text@),
            decreases aa@.len() - i,
        {
            proof {
                lemma_matching_step(texts, self.filter_text@, i as int);
            }
            let x = aa[i];
            if x < albums.len() && lower_contains(albums[x].album_title.as_str(), q.as_slice()) {
                out.push(i);
            }
            i += 1;
        }
        assert(texts.take(i as int) =~= texts);
        self.album_filtered = out;
    }

    /// Refills the track column.
    pub fn recompute_track_filter(&mut self, albums: &Vec<Album>)
        ensures
            final(self)@ == (NavView { track_filtered: track_filter(old(self)@, albums@), ..old(self)@ }),
    {
        let empty: Vec<Track> = Vec::new();
        let tracks: &Vec<Track> = match self.selected_album_idx {
            Some(i) => if i < albums.len() {
                &albums[i].tracks
            } else {
                &empty
            },
            None => &empty,
        };
        assert(tracks@ == album_tracks(albums@, self.selected_album_idx));
        if self.filter_text.as_str().is_empty() || self.focus != Column::Tracks {
            self.track_filtered = range_vec(tracks.len());
            return;
        }
        let ql = to_lowercase(self.filter_text.as_str());
        let q = chars_of(ql.as_str());
        let ghost texts = track_texts(tracks@);
        let mut out: Vec<usize> = Vec::new();
        let mut i: usize = 0;
        assert(texts.take(0) =~= seq![]);
        while i < tracks.len()
            invariant
                i <= tracks@.len(),
                texts == track_texts(tracks@),
                q@ == lowercase_of(self.filter_text@),
                out@ == matching(texts.take(i as int), self.filter_text@),
            decreases tracks@.len() - i,
        {
            proof {
                lemma_matching_step(texts, self.filter_text@, i as int);
            }
            if lower_contains(tracks[i].title.as_str(), q.as_slice()) {
                out.push(i);
            }
            i += 1;
        }
        assert(texts.take(i as int) =~= texts);
        self.track_filtered = out;
    }

    /// Follows a move of the album selection.
    pub fn on_album_changed(&mut self, idx: &ArtistIndex, albums: &Vec<Album>)
        ensures
            final(self)@ == album_changed(old(self)@, *idx, albums@),
    {
        if self.artist_state.selected.is_some() {
            let aa = self.current_artist_album_indices(idx);
            let s = match self.album_state.selected {
                Some(s) => s,
                None => 0,
            };
            if s < self.album_filtered.len() && self.album_filtered[s] < aa.len() {
                self.selected_album_idx = Some(aa[self.album_filtered[s]]);
            } else {
                self.selected_album_idx = None;
            }
        } else {
            self.selected_album_idx = None;
        }
        self.recompute_track_filter(albums);
        let first = if self.track_filtered.len() > 0 { Some(0) } else { None };
        self.track_state.select(first);
        assert(self@ =~= album_changed(old(self)@, *idx, albums@));
    }

    /// Follows a move of the artist selection.
    pub fn on_artist_changed(&mut self, idx: &ArtistIndex, albums: &Vec<Album>)
        ensures
            final(self)@ == artist_changed(old(self)@, *idx, albums@),
    {
        self.recompute_album_filter(idx, albums);
        let first = if self.album_filtered.len() > 0 { Some(0) } else { None };
        self.album_state.select(first);
        let ghost mid = self@;
        self.on_album_changed(idx, albums);
        assert(mid =~= (NavView {
            album_filtered: album_filter(old(self)@, *idx, albums@),
            album_state: select_spec(old(self)@.album_state, first_row(album_filter(old(self)@, *idx, albums@).len())),
            ..old(self)@
        }));
    }

    /// Refills the focused column after the search text or focus changed.
    pub fn recompute_active_filter(&mut self, idx: &ArtistIndex, albums: &Vec<Album>)
        ensures
            final(self)@ == active_filter_changed(old(self)@, *idx, albums@),
    {
        match self.focus {
            Column::Artists => {
                self.recompute_artist_filter(idx);
                self.on_artist_changed(idx, albums);
            },
            Column::Albums => {
                self.recompute_album_filter(idx, albums);
                self.on_album_changed(idx, albums);
            },
            Column::Tracks => {
                self.recompute_track_filter(albums);
            },
        }
    }
}

/// A search lists rows of the list, in increasing order, each of them a
/// row whose text contains the search text.
pub proof fn law_search_lists_matching_rows(texts: Seq<Option<Seq<char>>>, q: Seq<char>)
    requires
        texts.len() <= usize::MAX,
    ensures
        forall|k: int| 0 <= k < matching(texts, q).len() ==> #[trigger] matching(texts, q)[k] < texts.len(),
        forall|k1: int, k2: int|
            0 <= k1 < k2 < matching(texts, q).len() ==> #[trigger] matching(texts, q)[k1] < #[trigger] matching(texts, q)[k2],
        forall|k: int| 0 <= k < matching(texts, q).len() ==> (texts[#[trigger] matching(texts, q)[k] as int] matches Some(t)
            && contains_spec(lowercase_of(t), lowercase_of(q))),
    decreases texts.len(),
{
    if texts.len() > 0 {
        law_search_lists_matching_rows(texts.drop_last(), q);
        let p = matching(texts.drop_last(), q);
        assert forall|k: int| 0 <= k < p.len() implies texts[#[trigger] p[k] as int] == texts.drop_last()[p[k] as int] by {}
    }
}

/// The album selected by the cascade is one of the selected artist's
/// albums.
pub proof fn law_chosen_album_is_the_artists(n: NavView, idx: ArtistIndex)
    ensures
        chosen_album(n, idx) matches Some(a) ==> artist_albums(n, idx).contains(a),
{
    if let Some(a) = chosen_album(n, idx) {
        let aa = artist_albums(n, idx);
        let s: usize = match n.album_state.selected {
            Some(s) => s,
            None => 0,
        };
        assert(aa[n.album_filtered[s as int] as int] == a);
    }
}

/// Whether a text, lower-cased, contains the lower-cased search text.
pub open spec fn text_matches(t: Seq<char>, q: Seq<char>) -> bool {
    contains_spec(lowercase_of(t), lowercase_of(q))
}

/// Whether the text at a position is present and matches the query.
pub open spec fn text_at_matches(texts: Seq<Option<Seq<char>>>, x: int, q: Seq<char>) -> bool {
    0 <= x < texts.len() && match texts[x] {
        Some(t) => text_matches(t, q),
        None => false,
    }
}

/// The positions that `matching` lists are exactly those of the present
/// texts that contain the query, in increasing order.
proof fn lemma_matching_members(texts: Seq<Option<Seq<char>>>, q: Seq<char>)
    requires
        texts.len() <= usize::MAX + 1,
    ensures
        forall|x: usize| #[trigger] matching(texts, q).contains(x) <==> text_at_matches(texts, x as int, q),
        forall|a: int, b: int| 0 <= a < b < matching(texts, q).len() ==> matching(texts, q)[a] < matching(texts, q)[b],
        forall|a: int| 0 <= a < matching(texts, q).len() ==> matching(texts, q)[a] < texts.len(),
    decreases texts.len(),
{
    if texts.len() > 0 {
        let d = texts.drop_last();
        lemma_matching_members(d, q);
        let p = matching(d, q);
        let m = matching(texts, q);
        let last = (texts.len() - 1) as usize;
        assert(last as int == texts.len() - 1);
        assert(texts.last() == texts[last as int]);
        assert forall|x: int| 0 <= x < d.len() implies d[x] == texts[x] by {}
        if text_at_matches(texts, last as int, q) {
            assert(m == p.push(last));
            assert forall|x: usize| #[trigger] m.contains(x) <==> text_at_matches(texts, x as int, q) by {
                if m.contains(x) && x != last {
                    let k = choose|k: int| 0 <= k < m.len() && m[k] == x;
                    assert(k < p.len());
                    assert(p[k] == x);
                }
                if x < d.len() && p.contains(x) {
                    let k = choose|k: int| 0 <= k < p.len() && p[k] == x;
                    assert(m[k] == x);
                }
                if x == last {
                    assert(m[m.len() - 1] == x);
                }
            }
        } else {
            assert(m == p);
            assert forall|x: usize| #[trigger] m.contains(x) <==> text_at_matches(texts, x as int, q) by {
                if x < d.len() {
                    assert(text_at_matches(texts, x as int, q) == text_at_matches(d, x as int, q));
                }
            }
        }
    }
}

/// Searching the artist column lists exactly the artists whose name,
/// lower-cased, contains the lower-cased search text, in index order.
pub proof fn law_artist_search_lists_matching_names(n: NavView, idx: ArtistIndex)
    requires
        n.filter.len() > 0,
        n.focus == Column::Artists,
    ensures
        ({
            let names = idx.artists@;
            let listed = artist_filter(n, idx);
            &&& forall|i: usize| #[trigger] listed.contains(i) <==> (i < names.len() && text_matches(names[i as int]@, n.filter))
            &&& forall|a: int, b: int| 0 <= a < b < listed.len() ==> listed[a] < listed[b]
        }),
{
    assert(idx.artists.len() == idx.artists@.len());
    lemma_matching_members(artist_texts(idx), n.filter);
}

/// Searching the album column lists exactly the selected artist's albums
/// whose title, lower-cased, contains the lower-cased search text, in the
/// artist's order.
pub proof fn law_album_search_lists_matching_titles(n: NavView, idx: ArtistIndex, albums: Seq<Album>)
    requires
        n.filter.len() > 0,
        n.focus == Column::Albums,
    ensures
        ({
            let aa = artist_albums(n, idx);
            let listed = album_filter(n, idx, albums);
            &&& forall|i: usize| #[trigger] listed.contains(i) <==> (i < aa.len() && aa[i as int] < albums.len()
                && text_matches(albums[aa[i as int] as int].album_title@, n.filter))
            &&& forall|a: int, b: int| 0 <= a < b < listed.len() ==> listed[a] < listed[b]
        }),
{
    match n.artist_state.selected {
        Some(s) => if s < n.artist_filtered.len() {
            let a = n.artist_filtered[s as int];
            if a < idx.albums_by_artist@.len() {
                let v = idx.albums_by_artist@[a as int];
                assert(v.len() == v@.len());
            }
        },
        None => {},
    }
    lemma_matching_members(album_texts(albums, artist_albums(n, idx)), n.filter);
}

/// Searching the track column lists exactly the selected album's tracks
/// whose title, lower-cased, contains the lower-cased search text, in album
/// order.
pub proof fn law_track_search_lists_matching_titles(n: NavView, albums: Seq<Album>)
    requires
        n.filter.len() > 0,
        n.focus == Column::Tracks,
    ensures
        ({
            let ts = album_tracks(albums, n.selected_album);
            let listed = track_filter(n, albums);
            &&& forall|i: usize| #[trigger] listed.contains(i) <==> (i < ts.len() && text_matches(ts[i as int].title@, n.filter))
            &&& forall|a: int, b: int| 0 <= a < b < listed.len() ==> listed[a] < listed[b]
        }),
{
    match n.selected_album {
        Some(i) => if i < albums.len() {
            assert(albums[i as int].tracks.len() == albums[i as int].tracks@.len());
        },
        None => {},
    }
    lemma_matching_members(track_texts(album_tracks(albums, n.selected_album)), n.filter);
}

/// Without search text, or in the columns that are not searched, every row
/// is listed, in order.
pub proof fn law_unsearched_columns_list_every_row(n: NavView, idx: ArtistIndex, albums: Seq<Album>)
    ensures
        (n.filter.len() == 0 || n.focus != Column::Artists) ==> forall|i: usize| #[trigger] artist_filter(n, idx).contains(i) <==> i < idx.artists@.len(),
        (n.filter.len() == 0 || n.focus != Column::Albums) ==> forall|i: usize| #[trigger] album_filter(n, idx, albums).contains(i) <==> i < artist_albums(n, idx).len(),
        (n.filter.len() == 0 || n.focus != Column::Tracks) ==> forall|i: usize| #[trigger] track_filter(n, albums).contains(i) <==> i < album_tracks(albums, n.selected_album).len(),
{
    assert forall|m: nat, i: usize| #[trigger] range_seq(m).contains(i) <==> i < m by {
        if i < m {
            assert(range_seq(m)[i as int] == i);
        }
    }
}

} // verus!

