//! What the panes list: the rows of the artist, album, track and queue
//! columns, their titles, the download state of library albums, and the
//! grid of key bindings in the info view. Drawing them is left to the
//! terminal front end.
use vstd::prelude::*;
use crate::layout::{duration_text, format_duration};
use crate::library::{
    AlbumDownloadStatus, DownloadedAlbumView, LibraryIndex, count_downloaded, first_track,
    library_view,
};
use crate::models::{Album, Track};
use crate::queue::QueueItem;
use crate::text::{chars_of, decimal, decimal_chars, string_of};

verus! {

broadcast use vstd::std_specs::hash::group_hash_axioms;

/// The entries of `idx` that are positions of a list of `len` items, in
/// order (a listing skips positions past the list).
pub open spec fn in_range(idx: Seq<usize>, len: nat) -> Seq<usize>
    decreases idx.len(),
{
    if idx.len() == 0 {
        seq![]
    } else {
        let p = in_range(idx.drop_last(), len);
        if idx.last() < len {
            p.push(idx.last())
        } else {
            p
        }
    }
}

/// Keeps the entries of `idx` that are positions of a list of `len` items.
pub fn in_range_exec(idx: &[usize], len: usize) -> (r: Vec<usize>)
    ensures
        r@ == in_range(idx@, len as nat),
        forall|k: int| 0 <= k < r@.len() ==> #[trigger] r@[k] < len,
{
    let mut out: Vec<usize> = Vec::new();
    let mut i: usize = 0;
    assert(idx@.take(0) =~= seq![]);
    while i < idx.len()
        invariant
            i <= idx@.len(),
            out@ == in_range(idx@.take(i as int), len as nat),
            forall|k: int| 0 <= k < out@.len() ==> #[trigger] out@[k] < len,
        decreases idx@.len() - i,
    {
        assert(idx@.take(i + 1).drop_last() =~= idx@.take(i as int));
        if idx[i] < len {
            out.push(idx[i]);
        }
        i += 1;
    }
    assert(idx@.take(i as int) =~= idx@);
    out
}

/// The title of a column that lists `n` rows: ` <name> (<n>) `.
pub open spec fn count_title(name: Seq<char>, n: nat) -> Seq<char> {
    " "@ + name + " ("@ + decimal(n) + ") "@
}

/// Builds a column title.
pub fn column_title(name: &str, n: usize) -> (r: String)
    ensures
        r@ == count_title(name@, n as nat),
{
    let mut v = chars_of(" ");
    let nm = chars_of(name);
    v.extend_from_slice(nm.as_slice());
    let open = chars_of(" (");
    v.extend_from_slice(open.as_slice());
    let d = decimal_chars(n as u64);
    v.extend_from_slice(d.as_slice());
    let close = chars_of(") ");
    v.extend_from_slice(close.as_slice());
    assert(v@ =~= count_title(name@, n as nat));
    string_of(v.as_slice())
}

/// The artist column.
pub struct ArtistColumn<'a> {
    pub artists: &'a [String],
    pub filtered_indices: &'a [usize],
    pub focused: bool,
}

impl<'a> ArtistColumn<'a> {
    /// The names listed: the listed positions that are artists.
    pub fn names(&self) -> (r: Vec<String>)
        ensures
            r@.len() == in_range(self.filtered_indices@, self.artists@.len()).len(),
            forall|k: int| 0 <= k < r@.len() ==> #[trigger] r@[k] == self.artists@[in_range(
                self.filtered_indices@,
                self.artists@.len(),
            )[k] as int],
    {
        let pos = in_range_exec(self.filtered_indices, self.artists.len());
        let mut out: Vec<String> = Vec::new();
        let mut i: usize = 0;
        while i < pos.len()
            invariant
                i <= pos@.len(),
                pos@ == in_range(self.filtered_indices@, self.artists@.len()),
                forall|k: int| 0 <= k < pos@.len() ==> #[trigger] pos@[k] < self.artists@.len(),
                out@.len() == i,
                forall|k: int| 0 <= k < i ==> #[trigger] out@[k] == self.artists@[pos@[k] as int],
            decreases pos@.len() - i,
        {
            out.push(self.artists[pos[i]].clone());
            i += 1;
        }
        out
    }

    /// The column's title: ` Artists (<listed>) `.
    pub fn title(&self) -> (r: String)
        ensures
            r@ == count_title("Artists"@, self.filtered_indices@.len()),
    {
        column_title("Artists", self.filtered_indices.len())
    }
}

/// The albums that the album column lists: for each listed position of the
/// artist's album list that exists, the collection position it holds, when
/// that album exists.
pub open spec fn listed_albums(albums_len: nat, album_indices: Seq<usize>, filtered: Seq<usize>) -> Seq<usize>
    decreases filtered.len(),
{
    if filtered.len() == 0 {
        seq![]
    } else {
        let p = listed_albums(albums_len, album_indices, filtered.drop_last());
        let f = filtered.last();
        if f < album_indices.len() && album_indices[f as int] < albums_len {
            p.push(album_indices[f as int])
        } else {
            p
        }
    }
}

/// One row of the album column.
pub struct AlbumRow {
    /// The album is in the library, downloaded or not yet.
    pub in_library: bool,
    pub title: String,
}

/// The rows of the album column: each listed album's title, marked when the
/// library holds it.
pub fn album_rows(
    albums: &Vec<Album>,
    album_indices: &[usize],
    filtered: &[usize],
    library: &LibraryIndex,
) -> (r: Vec<AlbumRow>)
    ensures
        r@.len() == listed_albums(albums@.len(), album_indices@, filtered@).len(),
        forall|k: int| 0 <= k < r@.len() ==> {
            let a = albums@[listed_albums(albums@.len(), album_indices@, filtered@)[k] as int];
            &&& (#[trigger] r@[k]).in_library == library.albums@.contains_key(a.item_id)
            &&& r@[k].title@ == a.album_title@
        },
{
    let ghost lim = albums@.len();
    let mut out: Vec<AlbumRow> = Vec::new();
    let ghost mut pos: Seq<usize> = seq![];
    let mut i: usize = 0;
    assert(filtered@.take(0) =~= seq![]);
    while i < filtered.len()
        invariant
            i <= filtered@.len(),
            lim == albums@.len(),
            pos == listed_albums(lim, album_indices@, filtered@.take(i as int)),
            out@.len() == pos.len(),
            forall|k: int| 0 <= k < pos.len() ==> #[trigger] pos[k] < lim,
            forall|k: int| 0 <= k < out@.len() ==> {
                let a = albums@[pos[k] as int];
                &&& (#[trigger] out@[k]).in_library == library.albums@.contains_key(a.item_id)
                &&& out@[k].title@ == a.album_title@
            },
        decreases filtered@.len() - i,
    {
        assert(filtered@.take(i + 1).drop_last() =~= filtered@.take(i as int));
        let f = filtered[i];
        if f < album_indices.len() && album_indices[f] < albums.len() {
            let ai = album_indices[f];
            let a = &albums[ai];
            let row = AlbumRow { in_library: library.albums.contains_key(&a.item_id), title: a.album_title.clone() };
            out.push(row);
            proof {
                pos = pos.push(ai);
            }
        }
        i += 1;
    }
    assert(filtered@.take(i as int) =~= filtered@);
    out
}

/// A track number as `{:2}` prints it: right-aligned in two columns.
pub open spec fn pad2(n: nat) -> Seq<char> {
    if n < 10 {
        seq![' '] + decimal(n)
    } else {
        decimal(n)
    }
}

/// One row of the track column.
pub struct TrackRow {
    /// The track is downloaded.
    pub downloaded: bool,
    /// `{:2}. `, the track number.
    pub number: String,
    pub title: String,
    /// Two spaces and the duration as `mm:ss`.
    pub duration: String,
    /// The track is the one playing.
    pub playing: bool,
}

/// Whether the library has the first track of an album with this number
/// marked downloaded.
pub open spec fn track_downloaded(lib: Map<u64, DownloadedAlbumView>, item_id: u64, n: u32) -> bool {
    lib.contains_key(item_id) && match first_track(lib[item_id].tracks, n) {
        Some(i) => lib[item_id].tracks[i].downloaded,
        None => false,
    }
}

/// The row of a track of `album`.
pub open spec fn track_row_spec(
    r: TrackRow,
    album: Album,
    t: Track,
    lib: Map<u64, DownloadedAlbumView>,
    playing_album: Option<u64>,
    playing_track: Option<u32>,
) -> bool {
    &&& r.downloaded == track_downloaded(lib, album.item_id, t.track_num)
    &&& r.number@ == pad2(t.track_num as nat) + ". "@
    &&& r.title@ == t.title@
    &&& r.duration@ == "  "@ + duration_text((t.duration_ms / 1000) as nat)
    &&& r.playing == (playing_album == Some(album.item_id) && playing_track == Some(t.track_num))
}

/// The rows of the track column: the listed tracks of the album, each with
/// its download mark, number, title and duration, and whether it plays.
pub fn track_rows(
    album: &Album,
    filtered: &[usize],
    library: &LibraryIndex,
    playing_album: Option<u64>,
    playing_track: Option<u32>,
) -> (r: Vec<TrackRow>)
    ensures
        r@.len() == in_range(filtered@, album.tracks@.len()).len(),
        forall|k: int| 0 <= k < r@.len() ==> track_row_spec(
            #[trigger] r@[k],
            *album,
            album.tracks@[in_range(filtered@, album.tracks@.len())[k] as int],
            library_view(library.albums@),
            playing_album,
            playing_track,
        ),
{
    let pos = in_range_exec(filtered, album.tracks.len());
    let mut out: Vec<TrackRow> = Vec::new();
    let mut i: usize = 0;
    while i < pos.len()
        invariant
            i <= pos@.len(),
            pos@ == in_range(filtered@, album.tracks@.len()),
            forall|k: int| 0 <= k < pos@.len() ==> #[trigger] pos@[k] < album.tracks@.len(),
            out@.len() == i,
            forall|k: int| 0 <= k < i ==> track_row_spec(
                #[trigger] out@[k],
                *album,
                album.tracks@[pos@[k] as int],
                library_view(library.albums@),
                playing_album,
                playing_track,
            ),
        decreases pos@.len() - i,
    {
        let t = &album.tracks[pos[i]];
        let downloaded = library.is_track_downloaded(album.item_id, t.track_num);
        let mut num = if t.track_num < 10 { chars_of(" ") } else { Vec::new() };
        let d = decimal_chars(t.track_num as u64);
        num.extend_from_slice(d.as_slice());
        let dot = chars_of(". ");
        num.extend_from_slice(dot.as_slice());
        let mut dur = chars_of("  ");
        let f = format_duration(t.duration_ms / 1000);
        let fc = chars_of(f.as_str());
        dur.extend_from_slice(fc.as_slice());
        let playing = match (playing_album, playing_track) {
            (Some(a), Some(n)) => a == album.item_id && n == t.track_num,
            _ => false,
        };
        let row = TrackRow {
            downloaded,
            number: string_of(num.as_slice()),
            title: t.title.clone(),
            duration: string_of(dur.as_slice()),
            playing,
        };
        proof {
            reveal_strlit(" ");
            let lm = library.albums@;
            assert(library_view(lm).contains_key(album.item_id) == lm.contains_key(album.item_id));
            if lm.contains_key(album.item_id) {
                assert(library_view(lm)[album.item_id].tracks == lm[album.item_id].tracks@);
            }
            assert(num@ =~= pad2(t.track_num as nat) + ". "@);
            assert(dur@ =~= "  "@ + duration_text((t.duration_ms / 1000) as nat));
        }
        out.push(row);
        i += 1;
    }
    out
}

/// The title of the track column: the album's artist and title.
pub open spec fn track_title_spec(album: Album) -> Seq<char> {
    " "@ + album.artist_name@ + " - "@ + album.album_title@ + " "@
}

/// The title of the track column.
pub fn track_column_title(album: &Album) -> (r: String)
    ensures
        r@ == track_title_spec(*album),
{
    let mut v = chars_of(" ");
    let a = chars_of(album.artist_name.as_str());
    v.extend_from_slice(a.as_slice());
    let dash = chars_of(" - ");
    v.extend_from_slice(dash.as_slice());
    let t = chars_of(album.album_title.as_str());
    v.extend_from_slice(t.as_slice());
    let sp = chars_of(" ");
    v.extend_from_slice(sp.as_slice());
    assert(v@ =~= track_title_spec(*album));
    string_of(v.as_slice())
}

/// What the track column shows for an album whose tracks are not known.
pub fn no_tracks_message(loading: bool) -> (r: &'static str)
    ensures
        r@ == if loading { "  Loading..."@ } else { "  Press Enter to load tracks"@ },
{
    if loading {
        "  Loading..."
    } else {
        "  Press Enter to load tracks"
    }
}

/// One row of the queue column.
pub struct QueueRow {
    /// The entry is the current one.
    pub current: bool,
    pub title: String,
    /// Two spaces and the duration as `mm:ss`.
    pub duration: String,
    /// Two spaces, then the artist and the album joined by an em dash.
    pub source: String,
}

/// The row of a queue entry.
pub open spec fn queue_row_spec(r: QueueRow, item: QueueItem, current: bool) -> bool {
    &&& r.current == current
    &&& r.title@ == item.track.title@
    &&& r.duration@ == "  "@ + duration_text((item.track.duration_ms / 1000) as nat)
    &&& r.source@ == "  "@ + item.artist_name@ + " \u{2014} "@ + item.album_title@
}

/// The rows of the queue column, the current entry marked.
pub fn queue_rows(items: &Vec<QueueItem>, current: Option<usize>) -> (r: Vec<QueueRow>)
    ensures
        r@.len() == items@.len(),
        forall|k: int| 0 <= k < r@.len() ==> queue_row_spec(#[trigger] r@[k], items@[k], current == Some(k as usize)),
{
    let mut out: Vec<QueueRow> = Vec::new();
    let mut i: usize = 0;
    while i < items.len()
        invariant
            i <= items@.len(),
            out@.len() == i,
            forall|k: int| 0 <= k < i ==> queue_row_spec(#[trigger] out@[k], items@[k], current == Some(k as usize)),
        decreases items@.len() - i,
    {
        let item = &items[i];
        let mut dur = chars_of("  ");
        let f = format_duration(item.track.duration_ms / 1000);
        let fc = chars_of(f.as_str());
        dur.extend_from_slice(fc.as_slice());
        let mut src = chars_of("  ");
        let a = chars_of(item.artist_name.as_str());
        src.extend_from_slice(a.as_slice());
        let sep = chars_of(" \u{2014} ");
        src.extend_from_slice(sep.as_slice());
        let t = chars_of(item.album_title.as_str());
        src.extend_from_slice(t.as_slice());
        let is_current = match current {
            Some(c) => c == i,
            None => false,
        };
        let row = QueueRow {
            current: is_current,
            title: item.track.title.clone(),
            duration: string_of(dur.as_slice()),
            source: string_of(src.as_slice()),
        };
        assert(dur@ =~= "  "@ + duration_text((item.track.duration_ms / 1000) as nat));
        assert(src@ =~= "  "@ + item.artist_name@ + " \u{2014} "@ + item.album_title@);
        out.push(row);
        i += 1;
    }
    out
}

/// The download state of a library album as the downloads view shows it:
/// `done/total`, with `  downloading...` while it downloads; nothing for an
/// album not in the library.
pub open spec fn download_state_text(lib: Map<u64, DownloadedAlbumView>, item_id: u64) -> Seq<char> {
    if lib.contains_key(item_id) {
        let a = lib[item_id];
        let total = decimal(a.tracks.len());
        match a.status {
            AlbumDownloadStatus::Complete => total + "/"@ + total,
            AlbumDownloadStatus::Downloading => decimal(count_downloaded(a.tracks)) + "/"@ + total
                + "  downloading..."@,
            AlbumDownloadStatus::Partial => decimal(count_downloaded(a.tracks)) + "/"@ + total,
        }
    } else {
        seq![]
    }
}

/// The download state of a library album.
pub fn download_state(library: &LibraryIndex, item_id: u64) -> (r: String)
    ensures
        r@ == download_state_text(library_view(library.albums@), item_id),
{
    let status = match library.album_status(item_id) {
        Some(s) => s,
        None => {
            let e = String::new();
            return e;
        },
    };
    let (done, total) = library.progress(item_id);
    let t = decimal_chars(total as u64);
    let mut v: Vec<char> = Vec::new();
    match status {
        AlbumDownloadStatus::Complete => {
            v.extend_from_slice(t.as_slice());
            v.push('/');
            v.extend_from_slice(t.as_slice());
        },
        AlbumDownloadStatus::Downloading => {
            let d = decimal_chars(done as u64);
            v.extend_from_slice(d.as_slice());
            v.push('/');
            v.extend_from_slice(t.as_slice());
            let tail = chars_of("  downloading...");
            v.extend_from_slice(tail.as_slice());
        },
        AlbumDownloadStatus::Partial => {
            let d = decimal_chars(done as u64);
            v.extend_from_slice(d.as_slice());
            v.push('/');
            v.extend_from_slice(t.as_slice());
        },
    }
    proof {
        reveal_strlit("/");
        let lm = library.albums@;
        assert(library_view(lm).contains_key(item_id));
        assert(library_view(lm)[item_id] == lm[item_id]@);
        assert(lm[item_id].tracks.len() == lm[item_id].tracks@.len());
        crate::library::lemma_count_downloaded_le(lm[item_id].tracks@);
        assert(total == lm[item_id].tracks@.len());
        assert(done == count_downloaded(lm[item_id].tracks@));
        assert(status == lm[item_id].status);
    }
    assert(v@ =~= download_state_text(library_view(library.albums@), item_id));
    string_of(v.as_slice())
}

/// Width of one column of the key binding grid.
pub const BINDING_COLUMN_WIDTH: usize = 28;

/// The info view.
pub struct SettingsView {
    pub username: String,
    pub album_count: usize,
    pub downloaded_count: usize,
    pub scroll: u16,
}

/// The number of columns of the key binding grid in an area `width` wide:
/// as many as fit, at least one.
pub open spec fn grid_columns(width: nat) -> nat {
    if width / 28 < 1 {
        1
    } else {
        width / 28
    }
}

/// The number of rows of the key binding grid.
pub open spec fn grid_rows(n: nat, width: nat) -> nat {
    ((n + grid_columns(width) - 1) as nat) / grid_columns(width)
}

/// The bindings of one row of the grid: column by column, the binding at
/// `column * rows + row`, where there is one.
pub open spec fn grid_row(n: nat, width: nat, row: nat) -> Seq<usize> {
    let cols = grid_columns(width);
    let rows = grid_rows(n, width);
    Seq::new(cols, |c: int| (c * rows + row) as usize).filter(|i: usize| i < n)
}

impl SettingsView {
    /// The grid of `n` key bindings in an area `width` wide, row by row: the
    /// positions of the bindings in each row. The list fills the columns
    /// one after the other, top to bottom.
    pub fn keybinding_grid(n: usize, width: u16) -> (r: Vec<Vec<usize>>)
        requires
            n <= isize::MAX,
        ensures
            r@.len() == grid_rows(n as nat, width as nat),
            forall|row: int| 0 <= row < r@.len() ==> #[trigger] r@[row]@ == grid_row(n as nat, width as nat, row as nat),
    {
        let w = width as usize / BINDING_COLUMN_WIDTH;
        let cols: usize = if w < 1 { 1 } else { w };
        assert(cols <= 2341);
        let rows: usize = (n + cols - 1) / cols;
        assert(rows * cols <= n + cols - 1) by (nonlinear_arith)
            requires
                rows == ((n + cols - 1) as int) / (cols as int),
                cols >= 1,
        ;
        assert(cols as nat == grid_columns(width as nat));
        assert(rows as nat == grid_rows(n as nat, width as nat));
        let mut out: Vec<Vec<usize>> = Vec::new();
        let mut row: usize = 0;
        while row < rows
            invariant
                row <= rows,
                cols as nat == grid_columns(width as nat),
                rows as nat == grid_rows(n as nat, width as nat),
                cols >= 1,
                cols <= 2341,
                rows * cols <= n + cols - 1,
                n <= isize::MAX,
                out@.len() == row,
                forall|r: int| 0 <= r < row ==> #[trigger] out@[r]@ == grid_row(n as nat, width as nat, r as nat),
            decreases rows - row,
        {
            let mut line: Vec<usize> = Vec::new();
            let mut c: usize = 0;
            let ghost all = Seq::new(cols as nat, |k: int| (k * rows + row) as usize);
            while c < cols
                invariant
                    c <= cols,
                    cols <= 2341,
                    rows * cols <= n + cols - 1,
                    n <= isize::MAX,
                    row < rows,
                    all == Seq::new(cols as nat, |k: int| (k * rows + row) as usize),
                    line@ == all.take(c as int).filter(|i: usize| i < n),
                decreases cols - c,
            {
                assert(c * rows + row <= n + cols - 2) by (nonlinear_arith)
                    requires
                        c < cols,
                        row < rows,
                        rows * cols <= n + cols - 1,
                ;
                let idx = c * rows + row;
                proof {
                    assert(all.take(c + 1).drop_last() =~= all.take(c as int));
                    assert(all.take(c + 1).last() == idx);
                    all.take(c as int).lemma_filter_push(idx, |i: usize| i < n);
                    assert(all.take(c as int).push(idx) =~= all.take(c + 1));
                }
                if idx < n {
                    line.push(idx);
                }
                c += 1;
            }
            assert(all.take(c as int) =~= all);
            out.push(line);
            row += 1;
        }
        out
    }
}

} // verus!
